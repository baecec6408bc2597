//! The cast engine: a small table of pure functions mapping pairs of scalar
//! target types to the instruction sequence implementing that numeric
//! conversion on the target machine.

use vstd::prelude::*;
use crate::cil_op::{CILOp, lemma_stack_delta_one, lemma_stack_delta_push, seq_stack_delta};
use crate::codegen_error::CodegenError;
use crate::types::{FloatTy, Instantiation, IntTy, SourceType, Type, UintTy, is_translation,
    is_translation_inst};

verus! {

/// Resolves a top-level generic-parameter occurrence against the
/// instantiation; every other type is already its own resolution.
pub open spec fn resolve_top(t: SourceType, inst: Instantiation) -> SourceType {
    match t {
        SourceType::Param(i) => if i < inst.args@.len() {
            inst.args@[i as int]
        } else {
            t
        },
        _ => t,
    }
}

/// The source type resolves to an integer scalar.
pub open spec fn src_int(t: SourceType, inst: Instantiation) -> bool {
    resolve_top(t, inst) matches SourceType::Int(_) || resolve_top(t, inst)
        matches SourceType::Uint(_)
}

/// The source type resolves to a float scalar.
pub open spec fn src_float(t: SourceType, inst: Instantiation) -> bool {
    resolve_top(t, inst) matches SourceType::Float(_)
}

/// The source type resolves to a raw pointer.
pub open spec fn src_raw_ptr(t: SourceType, inst: Instantiation) -> bool {
    resolve_top(t, inst) matches SourceType::RawPtr(_)
}

/// The source type resolves to something that translates to a target
/// pointer: a raw pointer or a reference.
pub open spec fn src_ptr_like(t: SourceType, inst: Instantiation) -> bool {
    resolve_top(t, inst) matches SourceType::RawPtr(_) || resolve_top(t, inst)
        matches SourceType::Ref(_)
}

/// The source type resolves to a native-word-sized integer.
pub open spec fn src_native_int(t: SourceType, inst: Instantiation) -> bool {
    resolve_top(t, inst) == SourceType::Int(IntTy::Isize) || resolve_top(t, inst)
        == SourceType::Uint(UintTy::Usize)
}

/// The target scalar a source scalar translates to (meaningful only for
/// integer and float scalars).
pub open spec fn scalar_repr(t: SourceType, inst: Instantiation) -> Type {
    match resolve_top(t, inst) {
        SourceType::Int(IntTy::I8) => Type::I8,
        SourceType::Int(IntTy::I16) => Type::I16,
        SourceType::Int(IntTy::I32) => Type::I32,
        SourceType::Int(IntTy::I64) => Type::I64,
        SourceType::Int(IntTy::Isize) => Type::ISize,
        SourceType::Uint(UintTy::U8) => Type::U8,
        SourceType::Uint(UintTy::U16) => Type::U16,
        SourceType::Uint(UintTy::U32) => Type::U32,
        SourceType::Uint(UintTy::U64) => Type::U64,
        SourceType::Uint(UintTy::Usize) => Type::USize,
        SourceType::Float(FloatTy::F32) => Type::F32,
        SourceType::Float(FloatTy::F64) => Type::F64,
        _ => Type::Void,
    }
}

/// A translated type has exactly the scalar/pointer shape of its source:
/// translation preserves integer-ness, float-ness, pointer-ness and the
/// native-word property, and on scalars it is the scalar representation.
/// Together with translation totality this makes the cast tables' coverage
/// a function of the source types alone.
pub proof fn lemma_translation_shape(t: SourceType, inst: Instantiation, tt: Type)
    requires
        is_translation_inst(t, inst, tt),
    ensures
        src_int(t, inst) <==> is_int(tt),
        src_float(t, inst) <==> is_float(tt),
        src_ptr_like(t, inst) <==> tt matches Type::Ptr(_),
        src_native_int(t, inst) <==> is_native_int(tt),
        src_int(t, inst) || src_float(t, inst) ==> tt == scalar_repr(t, inst),
{
    match t {
        SourceType::Param(i) => {
            let r = inst.args@[i as int];
            assert(is_translation(r, tt));
            assert(resolve_top(t, inst) == r);
            if r matches SourceType::Param(_) {
                assert(!is_translation(r, tt));
            }
            lemma_translation_shape_concrete(r, inst, tt);
            assert(resolve_top(r, inst) == r);
        },
        _ => {
            assert(resolve_top(t, inst) == t);
        },
    }
}

/// Shape preservation for the instantiation-free translation relation; the
/// instantiation only fixes the context `resolve_top` is read in.
proof fn lemma_translation_shape_concrete(t: SourceType, inst: Instantiation, tt: Type)
    requires
        is_translation(t, tt),
        !(t matches SourceType::Param(_)),
    ensures
        src_int(t, inst) <==> is_int(tt),
        src_float(t, inst) <==> is_float(tt),
        src_ptr_like(t, inst) <==> tt matches Type::Ptr(_),
        src_native_int(t, inst) <==> is_native_int(tt),
        src_int(t, inst) || src_float(t, inst) ==> tt == scalar_repr(t, inst),
{
    assert(resolve_top(t, inst) == t);
}

/// Every conversion instruction the cast engine selects leaves the stack
/// depth unchanged: it transforms the top of the stack in place.
pub proof fn lemma_conversion_stack_neutral(src: Type, dst: Type)
    ensures
        seq_stack_delta(int_to_int_ops(src, dst)) == 0,
        seq_stack_delta(int_to_float_ops(src, dst)) == 0,
        seq_stack_delta(float_to_int_ops(src, dst)) == 0,
{
    if width_of(src) != width_of(dst) {
        if width_of(src) < width_of(dst) {
            lemma_stack_delta_one(conv_op(dst, is_signed(src)));
        } else {
            lemma_stack_delta_one(conv_op(dst, is_signed(dst)));
        }
    }
    let f = if dst == Type::F32 {
        CILOp::ConvF32
    } else {
        CILOp::ConvF64
    };
    lemma_stack_delta_one(f);
    if !is_signed(src) {
        lemma_stack_delta_one(CILOp::ConvRUn);
        lemma_stack_delta_push(seq![CILOp::ConvRUn], f);
        assert(seq![CILOp::ConvRUn].push(f) =~= seq![CILOp::ConvRUn, f]);
    }
    lemma_stack_delta_one(conv_op(dst, is_signed(dst)));
}

/// The scalar integer types of the target machine, the native-word-sized
/// ones included.
pub open spec fn is_int(t: Type) -> bool {
    match t {
        Type::I8 | Type::I16 | Type::I32 | Type::I64 | Type::ISize => true,
        Type::U8 | Type::U16 | Type::U32 | Type::U64 | Type::USize => true,
        _ => false,
    }
}

/// Signedness of a scalar integer type.
pub open spec fn is_signed(t: Type) -> bool {
    match t {
        Type::I8 | Type::I16 | Type::I32 | Type::I64 | Type::ISize => true,
        _ => false,
    }
}

/// An integer type occupying exactly one machine word, sharing its
/// representation with raw pointers.
pub open spec fn is_native_int(t: Type) -> bool {
    t == Type::ISize || t == Type::USize
}

/// Byte width of a scalar integer or pointer type; the native word is
/// modelled as 8 bytes wide.
pub open spec fn width_of(t: Type) -> int {
    match t {
        Type::I8 | Type::U8 => 1,
        Type::I16 | Type::U16 => 2,
        Type::I32 | Type::U32 => 4,
        Type::I64 | Type::U64 => 8,
        Type::ISize | Type::USize | Type::Ptr(_) => 8,
        _ => 0,
    }
}

/// The conversion instruction that narrows or extends to `dst`, reading the
/// value to convert as signed when `signed` holds.
pub open spec fn conv_op(dst: Type, signed: bool) -> CILOp {
    if signed {
        match dst {
            Type::I8 => CILOp::ConvI8,
            Type::I16 => CILOp::ConvI16,
            Type::I32 => CILOp::ConvI32,
            Type::I64 => CILOp::ConvI64,
            _ => CILOp::ConvISize,
        }
    } else {
        match dst {
            Type::U8 | Type::I8 => CILOp::ConvU8,
            Type::U16 | Type::I16 => CILOp::ConvU16,
            Type::U32 | Type::I32 => CILOp::ConvU32,
            Type::U64 | Type::I64 => CILOp::ConvU64,
            _ => CILOp::ConvUSize,
        }
    }
}

/// The pairs the integer-to-integer table covers: two integers, or the
/// size-preserving reinterpretation between a raw pointer and a native-word
/// integer (either direction).
pub open spec fn int_to_int_covered(src: Type, dst: Type) -> bool {
    (is_int(src) && is_int(dst)) || (src matches Type::Ptr(_) && is_native_int(dst)) || (
    is_native_int(src) && dst matches Type::Ptr(_))
}

/// The instruction sequence converting an integer value of type `src` into
/// one of type `dst`: equal widths need no representation change (a cast of
/// a type to itself, a sign reinterpretation, and the pointer/native-word
/// reinterpretation are all empty); widening extends according to the
/// signedness of the source; narrowing truncates to the destination.
pub open spec fn int_to_int_ops(src: Type, dst: Type) -> Seq<CILOp> {
    if width_of(src) == width_of(dst) {
        Seq::empty()
    } else if width_of(src) < width_of(dst) {
        seq![conv_op(dst, is_signed(src))]
    } else {
        seq![conv_op(dst, is_signed(dst))]
    }
}

/// Selects the conversion instructions for an integer-to-integer cast (or a
/// pointer/native-word reinterpretation); any pair outside the covered
/// table is an unimplemented-lowering gap.
pub fn int_to_int(src: &Type, dst: &Type) -> (r: Result<Vec<CILOp>, CodegenError>)
    ensures
        match r {
            Ok(ops) => int_to_int_covered(*src, *dst) && ops@ == int_to_int_ops(*src, *dst),
            Err(e) => !int_to_int_covered(*src, *dst) && e == CodegenError::UnimplementedLowering,
        },
{
    match (src, dst) {
        (Type::Ptr(_), Type::ISize) | (Type::Ptr(_), Type::USize) | (Type::ISize, Type::Ptr(_))
            | (Type::USize, Type::Ptr(_)) => Ok(Vec::new()),
        _ => {
            if !int_kind(src) || !int_kind(dst) {
                return Err(CodegenError::UnimplementedLowering);
            }
            let ws = width_exec(src);
            let wd = width_exec(dst);
            if ws == wd {
                Ok(Vec::new())
            } else if ws < wd {
                let mut ops: Vec<CILOp> = Vec::new();
                ops.push(conv_op_exec(dst, signed_kind(src)));
                Ok(ops)
            } else {
                let mut ops: Vec<CILOp> = Vec::new();
                ops.push(conv_op_exec(dst, signed_kind(dst)));
                Ok(ops)
            }
        },
    }
}

/// Runtime test for `is_int`.
fn int_kind(t: &Type) -> (r: bool)
    ensures
        r == is_int(*t),
{
    match t {
        Type::I8 | Type::I16 | Type::I32 | Type::I64 | Type::ISize => true,
        Type::U8 | Type::U16 | Type::U32 | Type::U64 | Type::USize => true,
        _ => false,
    }
}

/// Runtime test for `is_signed`.
fn signed_kind(t: &Type) -> (r: bool)
    ensures
        r == is_signed(*t),
{
    match t {
        Type::I8 | Type::I16 | Type::I32 | Type::I64 | Type::ISize => true,
        _ => false,
    }
}

/// Runtime value of `width_of`.
fn width_exec(t: &Type) -> (r: u8)
    ensures
        r as int == width_of(*t),
{
    match t {
        Type::I8 | Type::U8 => 1,
        Type::I16 | Type::U16 => 2,
        Type::I32 | Type::U32 => 4,
        Type::I64 | Type::U64 => 8,
        Type::ISize | Type::USize | Type::Ptr(_) => 8,
        _ => 0,
    }
}

/// Runtime value of `conv_op`.
fn conv_op_exec(dst: &Type, signed: bool) -> (r: CILOp)
    ensures
        r == conv_op(*dst, signed),
{
    if signed {
        match dst {
            Type::I8 => CILOp::ConvI8,
            Type::I16 => CILOp::ConvI16,
            Type::I32 => CILOp::ConvI32,
            Type::I64 => CILOp::ConvI64,
            _ => CILOp::ConvISize,
        }
    } else {
        match dst {
            Type::U8 | Type::I8 => CILOp::ConvU8,
            Type::U16 | Type::I16 => CILOp::ConvU16,
            Type::U32 | Type::I32 => CILOp::ConvU32,
            Type::U64 | Type::I64 => CILOp::ConvU64,
            _ => CILOp::ConvUSize,
        }
    }
}

/// The float target of an integer-to-float cast, or the float source of a
/// float-to-integer cast.
pub open spec fn is_float(t: Type) -> bool {
    t == Type::F32 || t == Type::F64
}

/// The instructions converting an integer of type `src` to a float of type
/// `dst`: an unsigned source needs the unsigned-aware conversion first.
pub open spec fn int_to_float_ops(src: Type, dst: Type) -> Seq<CILOp> {
    let f = if dst == Type::F32 {
        CILOp::ConvF32
    } else {
        CILOp::ConvF64
    };
    if is_signed(src) {
        seq![f]
    } else {
        seq![CILOp::ConvRUn, f]
    }
}

/// Selects the conversion instructions for an integer-to-float cast.
pub fn int_to_float(src: &Type, dst: &Type) -> (r: Result<Vec<CILOp>, CodegenError>)
    ensures
        match r {
            Ok(ops) => is_int(*src) && is_float(*dst) && ops@ == int_to_float_ops(*src, *dst),
            Err(e) => !(is_int(*src) && is_float(*dst)) && e
                == CodegenError::UnimplementedLowering,
        },
{
    if !int_kind(src) || !float_kind(dst) {
        return Err(CodegenError::UnimplementedLowering);
    }
    let f = if let Type::F32 = dst {
        CILOp::ConvF32
    } else {
        CILOp::ConvF64
    };
    let mut ops: Vec<CILOp> = Vec::new();
    if !signed_kind(src) {
        ops.push(CILOp::ConvRUn);
    }
    ops.push(f);
    Ok(ops)
}

/// The instruction converting a float to an integer of type `dst`:
/// truncation towards zero, by the destination's signedness and width.
pub open spec fn float_to_int_ops(src: Type, dst: Type) -> Seq<CILOp> {
    seq![conv_op(dst, is_signed(dst))]
}

/// Selects the conversion instructions for a float-to-integer cast.
pub fn float_to_int(src: &Type, dst: &Type) -> (r: Result<Vec<CILOp>, CodegenError>)
    ensures
        match r {
            Ok(ops) => is_float(*src) && is_int(*dst) && ops@ == float_to_int_ops(*src, *dst),
            Err(e) => !(is_float(*src) && is_int(*dst)) && e
                == CodegenError::UnimplementedLowering,
        },
{
    if !float_kind(src) || !int_kind(dst) {
        return Err(CodegenError::UnimplementedLowering);
    }
    let mut ops: Vec<CILOp> = Vec::new();
    ops.push(conv_op_exec(dst, signed_kind(dst)));
    Ok(ops)
}

/// Runtime test for `is_float`.
fn float_kind(t: &Type) -> (r: bool)
    ensures
        r == is_float(*t),
{
    match t {
        Type::F32 | Type::F64 => true,
        _ => false,
    }
}

/// Casting any integer type to itself changes nothing: the selected
/// instruction sequence is empty, so the value's representation is untouched.
pub proof fn lemma_int_cast_round_trip(t: Type)
    requires
        is_int(t),
    ensures
        int_to_int_covered(t, t),
        int_to_int_ops(t, t) == Seq::<CILOp>::empty(),
{
}

/// The reinterpretation between a raw pointer and a native-word integer, in
/// either direction, is a no-op: both occupy one machine word and share
/// their representation, and the cast engine covers the pair with an
/// explicitly empty sequence.
pub proof fn lemma_ptr_reinterpret_noop(p: Type, i: Type)
    requires
        p matches Type::Ptr(_),
        is_native_int(i),
    ensures
        int_to_int_covered(p, i),
        int_to_int_covered(i, p),
        int_to_int_ops(p, i) == Seq::<CILOp>::empty(),
        int_to_int_ops(i, p) == Seq::<CILOp>::empty(),
{
}

} // verus!
