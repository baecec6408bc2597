//! The target machine's instruction vocabulary, call descriptors and field
//! descriptors, together with the stack-effect accounting used to state the
//! stack discipline of every lowered sequence.

use vstd::prelude::*;
use crate::types::{FnSig, Type};

verus! {

/// The field a memory-access instruction refers to. Fields are addressed
/// positionally (in source declaration order); the discriminant tag of a
/// tagged union is a distinguished field of its own, so that the assembly
/// builder can render it under the name reserved for tags.
#[derive(PartialEq, Eq, Debug)]
pub enum FieldName {
    Ordinal(u32),
    Tag,
}

/// Fully describes one field of a class-typed target type: the owning type,
/// the field's type and which field of the owner it is.
#[derive(PartialEq, Eq, Debug)]
pub struct FieldDescriptor {
    pub owner: Type,
    pub tpe: Type,
    pub name: FieldName,
}

impl FieldDescriptor {
    /// Builds a field descriptor from its parts.
    pub fn new(owner: Type, tpe: Type, name: FieldName) -> (r: FieldDescriptor)
        ensures
            r.owner == owner,
            r.tpe == tpe,
            r.name == name,
    {
        FieldDescriptor { owner, tpe, name }
    }
}

/// A fully-specified call descriptor: optional owner type, static/instance
/// flag, method name and signature. The owner is absent only for calls
/// resolved by signature alone. An instance method's receiver is implicit
/// (not part of `signature.inputs`).
#[derive(PartialEq, Eq, Debug)]
pub struct CallSite {
    pub owner: Option<Type>,
    pub is_static: bool,
    pub name: String,
    pub signature: FnSig,
}

impl CallSite {
    /// Pure construction of a call descriptor from a pre-resolved method
    /// identity and signature; no failure path. Resolving the same inputs
    /// always yields this same descriptor.
    pub fn resolve(owner: Option<Type>, name: String, signature: FnSig, is_static: bool) -> (r:
        CallSite)
        ensures
            r.owner == owner,
            r.name == name,
            r.signature == signature,
            r.is_static == is_static,
    {
        CallSite { owner, is_static, name, signature }
    }
}

/// Call-site resolution is deterministic: two descriptors built from the
/// same owner, name, signature and flag are structurally equal values, so
/// resolving the same pre-resolved method identity twice yields equal
/// call sites.
pub proof fn lemma_resolve_deterministic(a: CallSite, b: CallSite)
    requires
        a.owner == b.owner,
        a.is_static == b.is_static,
        a.name == b.name,
        a.signature == b.signature,
    ensures
        a == b,
{
    assert(a == CallSite { owner: a.owner, is_static: a.is_static, name: a.name, signature: a.signature });
    assert(b == CallSite { owner: b.owner, is_static: b.is_static, name: b.name, signature: b.signature });
}

/// One instruction of the stack-based target machine. Instructions are pure
/// values; branches address a basic-block id, never a raw offset (the
/// assembly builder resolves block ids to offsets later).
#[derive(PartialEq, Eq, Debug)]
pub enum CILOp {
    /// Marks the entry of the basic block with the given id.
    BBLabel { bb_id: u32 },
    /// Unconditional branch to a basic-block id.
    GoTo { target: u32 },
    /// Pops two values; branches to the target block if they are equal.
    BEq { target: u32 },
    LDArg(u32),
    STArg(u32),
    LDArgA(u32),
    LDLoc(u32),
    STLoc(u32),
    LDLocA(u32),
    LDConstI32(i32),
    LDConstI64(i64),
    /// Pops an address, pushes the value of the given type read through it;
    /// optionally with volatile semantics.
    LDInd { tpe: Type, volatile: bool },
    /// Pops an object address, pushes the value of the described field.
    LDField(FieldDescriptor),
    /// Pops an object address, pushes the address of the described field.
    LDFieldA(FieldDescriptor),
    /// Pops a value then an object address; stores the value in the field.
    STField(FieldDescriptor),
    /// Pushes the byte size of the given type.
    SizeOf(Type),
    Call(CallSite),
    ConvI8,
    ConvI16,
    ConvI32,
    ConvI64,
    ConvISize,
    ConvU8,
    ConvU16,
    ConvU32,
    ConvU64,
    ConvUSize,
    ConvF32,
    ConvF64,
    /// Converts an unsigned integer to floating point (the unsigned-aware
    /// prelude of an integer-to-float conversion).
    ConvRUn,
    Add,
    Sub,
    Mul,
    Div,
    DivUn,
    Rem,
    RemUn,
    And,
    Or,
    XOr,
    Shl,
    Shr,
    ShrUn,
    Eq,
    Lt,
    LtUn,
    Gt,
    GtUn,
    Neg,
    Not,
    Ret,
}

/// Net number of values a call pushes onto the evaluation stack: the result
/// (if any) minus the declared parameters, minus the implicit receiver of an
/// instance method.
pub open spec fn call_stack_delta(cs: CallSite) -> int {
    (if cs.signature.output == Type::Void {
        0int
    } else {
        1int
    }) - cs.signature.inputs@.len() - (if cs.is_static {
        0int
    } else {
        1int
    })
}

/// Net stack effect of one instruction: how many values it pushes minus how
/// many it pops.
pub open spec fn op_stack_delta(op: CILOp) -> int {
    match op {
        CILOp::BBLabel { .. } => 0,
        CILOp::GoTo { .. } => 0,
        CILOp::BEq { .. } => -2,
        CILOp::LDArg(_) => 1,
        CILOp::STArg(_) => -1,
        CILOp::LDArgA(_) => 1,
        CILOp::LDLoc(_) => 1,
        CILOp::STLoc(_) => -1,
        CILOp::LDLocA(_) => 1,
        CILOp::LDConstI32(_) => 1,
        CILOp::LDConstI64(_) => 1,
        CILOp::LDInd { .. } => 0,
        CILOp::LDField(_) => 0,
        CILOp::LDFieldA(_) => 0,
        CILOp::STField(_) => -2,
        CILOp::SizeOf(_) => 1,
        CILOp::Call(cs) => call_stack_delta(cs),
        CILOp::Neg => 0,
        CILOp::Not => 0,
        CILOp::Ret => 0,
        CILOp::ConvI8 | CILOp::ConvI16 | CILOp::ConvI32 | CILOp::ConvI64 | CILOp::ConvISize
            | CILOp::ConvU8 | CILOp::ConvU16 | CILOp::ConvU32 | CILOp::ConvU64 | CILOp::ConvUSize
            | CILOp::ConvF32 | CILOp::ConvF64 | CILOp::ConvRUn => 0,
        CILOp::Add | CILOp::Sub | CILOp::Mul | CILOp::Div | CILOp::DivUn | CILOp::Rem
            | CILOp::RemUn | CILOp::And | CILOp::Or | CILOp::XOr | CILOp::Shl | CILOp::Shr
            | CILOp::ShrUn | CILOp::Eq | CILOp::Lt | CILOp::LtUn | CILOp::Gt | CILOp::GtUn => -1,
    }
}

/// Net stack effect of an instruction sequence: the sum of the effects of
/// its instructions.
pub open spec fn seq_stack_delta(ops: Seq<CILOp>) -> int
    decreases ops.len(),
{
    if ops.len() == 0 {
        0
    } else {
        seq_stack_delta(ops.drop_last()) + op_stack_delta(ops.last())
    }
}

/// Stack effects add up under concatenation, so composing independently
/// lowered sequences by simple concatenation composes their stack effects.
pub proof fn lemma_stack_delta_concat(a: Seq<CILOp>, b: Seq<CILOp>)
    ensures
        seq_stack_delta(a + b) == seq_stack_delta(a) + seq_stack_delta(b),
    decreases b.len(),
{
    if b.len() == 0 {
        assert(a + b =~= a);
    } else {
        lemma_stack_delta_concat(a, b.drop_last());
        assert((a + b).drop_last() =~= a + b.drop_last());
        assert((a + b).last() == b.last());
    }
}

/// A single-instruction sequence has that instruction's stack effect.
pub proof fn lemma_stack_delta_one(op: CILOp)
    ensures
        seq_stack_delta(seq![op]) == op_stack_delta(op),
{
    assert(seq![op].drop_last() =~= Seq::<CILOp>::empty());
    assert(seq![op].last() == op);
    assert(seq_stack_delta(Seq::<CILOp>::empty()) == 0);
}

/// Appending one instruction adds its stack effect.
pub proof fn lemma_stack_delta_push(a: Seq<CILOp>, op: CILOp)
    ensures
        seq_stack_delta(a.push(op)) == seq_stack_delta(a) + op_stack_delta(op),
{
    assert(a.push(op).drop_last() =~= a);
    assert(a.push(op).last() == op);
}

} // verus!
