//! The mid-level IR consumed from the host compiler: memory locations
//! (places), operands, expression nodes, and the per-function context
//! (the enclosing method body and its generic instantiation).

use vstd::prelude::*;
use crate::types::{Instantiation, SourceType, concrete, resolves};

verus! {

/// The enclosing method body, as far as lowering needs it: the types of the
/// function's slots in order. Slots `0 .. arg_count` are the arguments; the
/// remaining ones are the local variables.
#[derive(Debug)]
pub struct Body {
    pub locals: Vec<SourceType>,
    pub arg_count: u32,
}

/// One projection step applied to a memory location: dereference the
/// location's pointer value, or select one of its aggregate fields.
#[derive(Copy, Clone, PartialEq, Eq, Debug, Structural)]
pub enum PlaceElem {
    Deref,
    Field(u32),
}

/// A typed, addressable storage slot: a function slot plus a (possibly
/// empty) sequence of projection steps.
#[derive(PartialEq, Eq, Debug)]
pub struct Place {
    pub local: u32,
    pub projection: Vec<PlaceElem>,
}

/// A scalar constant together with its source type.
#[derive(PartialEq, Eq, Debug)]
pub struct Constant {
    pub ty: SourceType,
    pub value: i64,
}

/// A source for a value: read a memory location (by copy or by move — the
/// distinction is a front-end concern and lowers identically), or a constant.
#[derive(PartialEq, Eq, Debug)]
pub enum Operand {
    Copy(Place),
    Move(Place),
    Constant(Constant),
}

/// The cast flavours the IR distinguishes.
#[derive(Copy, Clone, PartialEq, Eq, Debug, Structural)]
pub enum CastKind {
    IntToInt,
    FloatToInt,
    IntToFloat,
    FloatToFloat,
    PtrToPtr,
    PointerCoercion,
    Transmute,
    PointerExposeAddress,
}

/// Operand-less queries over a type.
#[derive(Copy, Clone, PartialEq, Eq, Debug, Structural)]
pub enum NullOp {
    SizeOf,
    AlignOf,
}

/// Binary operator tokens of the IR.
#[derive(Copy, Clone, PartialEq, Eq, Debug, Structural)]
pub enum BinOp {
    Add,
    Sub,
    Mul,
    Div,
    Rem,
    BitAnd,
    BitOr,
    BitXor,
    Shl,
    Shr,
    Eq,
    Lt,
    Gt,
}

/// Unary operator tokens of the IR.
#[derive(Copy, Clone, PartialEq, Eq, Debug, Structural)]
pub enum UnOp {
    Neg,
    Not,
}

/// What an aggregate expression constructs: a plain struct, or the tagged
/// variant with the given discriminant value.
#[derive(Copy, Clone, PartialEq, Eq, Debug, Structural)]
pub enum AggregateKind {
    Struct,
    Variant(u32),
}

/// A typed IR expression node describing how to produce a value or write to
/// a location.
#[derive(PartialEq, Eq, Debug)]
pub enum Rvalue {
    /// Use/copy of an existing value or location.
    Use(Operand),
    /// Read of a location that holds an already-dereferenced value.
    CopyForDeref(Place),
    /// Reference to a location; mutability and exclusivity of the source
    /// reference are already resolved by the front end and lower identically.
    Ref(Place),
    /// Raw address of a location.
    AddressOf(Place),
    /// Numeric or representation cast of an operand to a target type.
    Cast(CastKind, Operand, SourceType),
    BinaryOp(BinOp, Operand, Operand),
    UnaryOp(UnOp, Operand),
    /// Operand-less query over a type.
    NullaryOp(NullOp, SourceType),
    /// Struct or enum-variant literal, written field by field into the
    /// destination location.
    Aggregate(AggregateKind, Vec<Operand>),
    /// Read of the active-variant tag of a tagged union.
    Discriminant(Place),
    /// Length query on an indexable location.
    Len(Place),
    /// Array literal repeating one element; not covered by this backend.
    Repeat(Operand, u64),
}

/// The slot a place starts from exists in the body.
pub open spec fn place_base_wf(p: Place, body: Body) -> bool {
    p.local < body.locals@.len()
}

/// The source type of the place's base slot.
pub open spec fn place_base_ty(p: Place, body: Body) -> SourceType {
    body.locals@[p.local as int]
}

/// The source type a place has after its first `n` projection steps.
pub open spec fn place_ty_prefix(base: SourceType, proj: Seq<PlaceElem>, n: int) -> SourceType
    decreases n,
{
    if n <= 0 {
        base
    } else {
        let prev = place_ty_prefix(base, proj, n - 1);
        match proj[n - 1] {
            PlaceElem::Deref => match prev {
                SourceType::RawPtr(p) => *p,
                SourceType::Ref(p) => *p,
                _ => prev,
            },
            PlaceElem::Field(f) => match prev {
                SourceType::Adt { name: _, fields } => if f < fields@.len() {
                    fields@[f as int]
                } else {
                    prev
                },
                _ => prev,
            },
        }
    }
}

/// The first `n` projection steps are type-correct: each dereference is
/// applied to a pointer or reference, each field selection to an aggregate
/// that has that field.
pub open spec fn place_proj_wf(base: SourceType, proj: Seq<PlaceElem>, n: int) -> bool
    decreases n,
{
    if n <= 0 {
        true
    } else {
        let prev = place_ty_prefix(base, proj, n - 1);
        place_proj_wf(base, proj, n - 1) && match proj[n - 1] {
            PlaceElem::Deref => prev matches SourceType::RawPtr(_) || prev matches SourceType::Ref(
                _,
            ),
            PlaceElem::Field(f) => prev matches SourceType::Adt { name: _, fields } && f
                < fields@.len(),
        }
    }
}

/// A place is well-formed in a body: its base slot exists and every
/// projection step is type-correct.
pub open spec fn place_wf(p: Place, body: Body) -> bool {
    place_base_wf(p, body) && place_proj_wf(place_base_ty(p, body), p.projection@, p.projection@.len() as int)
}

/// The source type of the whole place.
pub open spec fn place_ty_spec(p: Place, body: Body) -> SourceType {
    place_ty_prefix(place_base_ty(p, body), p.projection@, p.projection@.len() as int)
}

/// Scalar constants carry an integer or boolean type, and their value fits
/// the width of that type (narrower-than-64-bit values are loaded through
/// the 32-bit constant-load instruction).
pub open spec fn constant_wf(c: Constant) -> bool {
    match c.ty {
        SourceType::Int(crate::types::IntTy::I64) => true,
        SourceType::Int(crate::types::IntTy::Isize) => true,
        SourceType::Uint(crate::types::UintTy::U64) => true,
        SourceType::Uint(crate::types::UintTy::Usize) => true,
        SourceType::Int(_) => i32::MIN <= c.value <= i32::MAX,
        SourceType::Uint(_) => 0 <= c.value <= i32::MAX,
        SourceType::Bool => c.value == 0 || c.value == 1,
        _ => false,
    }
}

/// An operand is well-formed: a read place is well-formed, a constant is a
/// scalar whose value fits its type.
pub open spec fn operand_wf(op: Operand, body: Body) -> bool {
    match op {
        Operand::Copy(p) => place_wf(p, body),
        Operand::Move(p) => place_wf(p, body),
        Operand::Constant(c) => constant_wf(c),
    }
}

/// The source type an operand produces.
pub open spec fn operand_ty_spec(op: Operand, body: Body) -> SourceType {
    match op {
        Operand::Copy(p) => place_ty_spec(p, body),
        Operand::Move(p) => place_ty_spec(p, body),
        Operand::Constant(c) => c.ty,
    }
}

/// Every slot type of the body resolves under the instantiation bound to
/// the function being lowered (the host hands over bodies only together
/// with an instantiation that covers them).
pub open spec fn locals_resolved(body: Body, inst: Instantiation) -> bool {
    forall|i: int| 0 <= i < body.locals@.len() ==> resolves(#[trigger] body.locals@[i], inst)
}

/// A type component of a resolving type resolves too: dereferencing and
/// field selection never lose resolvedness, so every prefix type of a
/// well-formed place over a resolved body resolves.
pub proof fn lemma_prefix_resolves(base: SourceType, proj: Seq<PlaceElem>, n: int, inst: Instantiation)
    requires
        resolves(base, inst),
        place_proj_wf(base, proj, n),
    ensures
        resolves(place_ty_prefix(base, proj, n), inst),
    decreases n,
{
    if n > 0 {
        lemma_prefix_resolves(base, proj, n - 1, inst);
    }
}

/// As `lemma_prefix_resolves`, for fully concrete types.
pub proof fn lemma_prefix_concrete(base: SourceType, proj: Seq<PlaceElem>, n: int)
    requires
        concrete(base),
        place_proj_wf(base, proj, n),
    ensures
        concrete(place_ty_prefix(base, proj, n)),
    decreases n,
{
    if n > 0 {
        lemma_prefix_concrete(base, proj, n - 1);
    }
}

} // verus!
