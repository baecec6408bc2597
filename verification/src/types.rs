//! The target type language, the source-side type descriptors consumed from
//! the host compiler, and the translation between the two.

use vstd::prelude::*;
use crate::codegen_error::CodegenError;

verus! {

/// Width class of a signed source integer.
#[derive(Copy, Clone, PartialEq, Eq, Debug, Structural)]
pub enum IntTy {
    I8,
    I16,
    I32,
    I64,
    Isize,
}

/// Width class of an unsigned source integer.
#[derive(Copy, Clone, PartialEq, Eq, Debug, Structural)]
pub enum UintTy {
    U8,
    U16,
    U32,
    U64,
    Usize,
}

/// Width class of a source floating-point number.
#[derive(Copy, Clone, PartialEq, Eq, Debug, Structural)]
pub enum FloatTy {
    F32,
    F64,
}

/// A source-level type descriptor, as supplied (already type-checked) by the
/// host compiler. `Param` is an occurrence of a generic type parameter, to be
/// resolved against the instantiation of the function being lowered before
/// any target type is produced.
#[derive(PartialEq, Eq, Debug)]
pub enum SourceType {
    Int(IntTy),
    Uint(UintTy),
    Float(FloatTy),
    Bool,
    Unit,
    RawPtr(Box<SourceType>),
    Ref(Box<SourceType>),
    Adt { name: String, fields: Vec<SourceType> },
    Param(u32),
}

/// A type of the target machine. A `Type` value is never generic: every
/// generic parameter has been resolved before one is produced.
#[derive(PartialEq, Eq, Debug)]
pub enum Type {
    Void,
    Bool,
    I8,
    I16,
    I32,
    I64,
    ISize,
    U8,
    U16,
    U32,
    U64,
    USize,
    F32,
    F64,
    Ptr(Box<Type>),
    /// A class-typed reference: named, with its field types in source
    /// declaration order (the order is kept stable for layout).
    Class { name: String, fields: Vec<Type> },
    /// An externally declared, opaque type: assembly name plus type name.
    ExternType { assembly: String, name: String },
}

/// An ordered sequence of parameter types plus one return type. Instance
/// methods do not list their receiver: `this` is implicit.
#[derive(PartialEq, Eq, Debug)]
pub struct FnSig {
    pub inputs: Vec<Type>,
    pub output: Type,
}

impl FnSig {
    /// Builds a signature from its parameter list and return type.
    pub fn new(inputs: Vec<Type>, output: Type) -> (r: FnSig)
        ensures
            r.inputs == inputs,
            r.output == output,
    {
        FnSig { inputs, output }
    }
}

/// The concrete binding of generic type parameters for one function
/// specialization; parameter `i` is bound to `args[i]`.
#[derive(Debug)]
pub struct Instantiation {
    pub args: Vec<SourceType>,
}

/// A source type is concrete when no generic parameter occurs in it.
pub open spec fn concrete(t: SourceType) -> bool
    decreases t,
{
    match t {
        SourceType::Param(_) => false,
        SourceType::RawPtr(p) => concrete(*p),
        SourceType::Ref(p) => concrete(*p),
        SourceType::Adt { name: _, fields } => forall|i: int|
            0 <= i < fields@.len() ==> concrete(#[trigger] fields@[i]),
        _ => true,
    }
}

/// A well-formed instantiation binds every parameter to a concrete type.
pub open spec fn instantiation_wf(inst: Instantiation) -> bool {
    forall|i: int| 0 <= i < inst.args@.len() ==> concrete(#[trigger] inst.args@[i])
}

/// Every generic parameter occurring in `t` is bound by `inst`.
pub open spec fn resolves(t: SourceType, inst: Instantiation) -> bool
    decreases t,
{
    match t {
        SourceType::Param(i) => i < inst.args@.len(),
        SourceType::RawPtr(p) => resolves(*p, inst),
        SourceType::Ref(p) => resolves(*p, inst),
        SourceType::Adt { name: _, fields } => forall|i: int|
            0 <= i < fields@.len() ==> resolves(#[trigger] fields@[i], inst),
        _ => true,
    }
}

/// `tgt` is the translation of the concrete source type `src`: scalars map to
/// the scalar of the same width and signedness, pointers and references both
/// map to a pointer over the translated pointee, and an aggregate maps to a
/// class-typed reference with the translated field types in declaration
/// order. No target type corresponds to an unresolved parameter.
pub open spec fn is_translation(src: SourceType, tgt: Type) -> bool
    decreases src,
{
    match src {
        SourceType::Int(IntTy::I8) => tgt == Type::I8,
        SourceType::Int(IntTy::I16) => tgt == Type::I16,
        SourceType::Int(IntTy::I32) => tgt == Type::I32,
        SourceType::Int(IntTy::I64) => tgt == Type::I64,
        SourceType::Int(IntTy::Isize) => tgt == Type::ISize,
        SourceType::Uint(UintTy::U8) => tgt == Type::U8,
        SourceType::Uint(UintTy::U16) => tgt == Type::U16,
        SourceType::Uint(UintTy::U32) => tgt == Type::U32,
        SourceType::Uint(UintTy::U64) => tgt == Type::U64,
        SourceType::Uint(UintTy::Usize) => tgt == Type::USize,
        SourceType::Float(FloatTy::F32) => tgt == Type::F32,
        SourceType::Float(FloatTy::F64) => tgt == Type::F64,
        SourceType::Bool => tgt == Type::Bool,
        SourceType::Unit => tgt == Type::Void,
        SourceType::RawPtr(p) => tgt matches Type::Ptr(q) && is_translation(*p, *q),
        SourceType::Ref(p) => tgt matches Type::Ptr(q) && is_translation(*p, *q),
        SourceType::Adt { name, fields } => tgt matches Type::Class {
            name: cname,
            fields: cfields,
        } && cname@ == name@ && cfields@.len() == fields@.len() && forall|i: int|
            0 <= i < fields@.len() ==> is_translation(
                #[trigger] fields@[i],
                #[trigger] cfields@[i],
            ),
        SourceType::Param(_) => false,
    }
}

/// `tgt` is the translation of `src` under the instantiation `inst`: a
/// parameter occurrence translates as the concrete type it is bound to.
pub open spec fn is_translation_inst(src: SourceType, inst: Instantiation, tgt: Type) -> bool
    decreases src,
{
    match src {
        SourceType::Param(i) => i < inst.args@.len() && is_translation(inst.args@[i as int], tgt),
        SourceType::RawPtr(p) => tgt matches Type::Ptr(q) && is_translation_inst(*p, inst, *q),
        SourceType::Ref(p) => tgt matches Type::Ptr(q) && is_translation_inst(*p, inst, *q),
        SourceType::Adt { name, fields } => tgt matches Type::Class {
            name: cname,
            fields: cfields,
        } && cname@ == name@ && cfields@.len() == fields@.len() && forall|i: int|
            0 <= i < fields@.len() ==> is_translation_inst(
                #[trigger] fields@[i],
                inst,
                #[trigger] cfields@[i],
            ),
        _ => is_translation(src, tgt),
    }
}

/// Translates a concrete source type; fails with `UnresolvedGeneric` exactly
/// when a generic parameter still occurs in it.
#[verifier::loop_isolation(false)]
pub fn translate_concrete(src: &SourceType) -> (r: Result<Type, CodegenError>)
    ensures
        match r {
            Ok(t) => concrete(*src) && is_translation(*src, t),
            Err(e) => !concrete(*src) && e == CodegenError::UnresolvedGeneric,
        },
    decreases *src,
{
    match src {
        SourceType::Int(IntTy::I8) => Ok(Type::I8),
        SourceType::Int(IntTy::I16) => Ok(Type::I16),
        SourceType::Int(IntTy::I32) => Ok(Type::I32),
        SourceType::Int(IntTy::I64) => Ok(Type::I64),
        SourceType::Int(IntTy::Isize) => Ok(Type::ISize),
        SourceType::Uint(UintTy::U8) => Ok(Type::U8),
        SourceType::Uint(UintTy::U16) => Ok(Type::U16),
        SourceType::Uint(UintTy::U32) => Ok(Type::U32),
        SourceType::Uint(UintTy::U64) => Ok(Type::U64),
        SourceType::Uint(UintTy::Usize) => Ok(Type::USize),
        SourceType::Float(FloatTy::F32) => Ok(Type::F32),
        SourceType::Float(FloatTy::F64) => Ok(Type::F64),
        SourceType::Bool => Ok(Type::Bool),
        SourceType::Unit => Ok(Type::Void),
        SourceType::RawPtr(p) => match translate_concrete(p) {
            Ok(t) => Ok(Type::Ptr(Box::new(t))),
            Err(e) => Err(e),
        },
        SourceType::Ref(p) => match translate_concrete(p) {
            Ok(t) => Ok(Type::Ptr(Box::new(t))),
            Err(e) => Err(e),
        },
        SourceType::Adt { name, fields } => {
            let mut out: Vec<Type> = Vec::new();
            let mut i: usize = 0;
            while i < fields.len()
                invariant
                    0 <= i <= fields.len(),
                    out@.len() == i as int,
                    forall|j: int| 0 <= j < i as int ==> concrete(#[trigger] fields@[j]),
                    forall|j: int|
                        0 <= j < i as int ==> is_translation(fields@[j], #[trigger] out@[j]),
                decreases fields.len() - i,
            {
                proof {
                    broadcast use vstd::std_specs::vec::axiom_vec_index_decreases;
                    assert(decreases_to!(*src => src->Adt_fields));
                    assert(decreases_to!(src->Adt_fields => src->Adt_fields@[i as int]));
                    assert(decreases_to!(*src => fields@[i as int]));
                }
                match translate_concrete(&fields[i]) {
                    Ok(t) => {
                        out.push(t);
                        proof {
                            assert(concrete(fields@[i as int]));
                            assert(is_translation(fields@[i as int], out@[i as int]));
                        }
                    },
                    Err(e) => {
                        return Err(e);
                    },
                }
                i += 1;
            }
            Ok(Type::Class { name: name.clone(), fields: out })
        },
        SourceType::Param(_) => Err(CodegenError::UnresolvedGeneric),
    }
}

/// Translates a source type under the given instantiation, resolving every
/// generic parameter occurrence first; fails with `UnresolvedGeneric` exactly
/// when some occurring parameter is not bound by the instantiation.
#[verifier::loop_isolation(false)]
pub fn translate(src: &SourceType, inst: &Instantiation) -> (r: Result<Type, CodegenError>)
    requires
        instantiation_wf(*inst),
    ensures
        match r {
            Ok(t) => resolves(*src, *inst) && is_translation_inst(*src, *inst, t),
            Err(e) => !resolves(*src, *inst) && e == CodegenError::UnresolvedGeneric,
        },
    decreases *src,
{
    match src {
        SourceType::Param(i) => {
            let idx: usize = *i as usize;
            if idx < inst.args.len() {
                let r = translate_concrete(&inst.args[idx]);
                proof {
                    assert(concrete(inst.args@[idx as int]));
                }
                r
            } else {
                Err(CodegenError::UnresolvedGeneric)
            }
        },
        SourceType::RawPtr(p) => match translate(p, inst) {
            Ok(t) => Ok(Type::Ptr(Box::new(t))),
            Err(e) => Err(e),
        },
        SourceType::Ref(p) => match translate(p, inst) {
            Ok(t) => Ok(Type::Ptr(Box::new(t))),
            Err(e) => Err(e),
        },
        SourceType::Adt { name, fields } => {
            let mut out: Vec<Type> = Vec::new();
            let mut i: usize = 0;
            while i < fields.len()
                invariant
                    instantiation_wf(*inst),
                    0 <= i <= fields.len(),
                    out@.len() == i as int,
                    forall|j: int| 0 <= j < i as int ==> resolves(#[trigger] fields@[j], *inst),
                    forall|j: int|
                        0 <= j < i as int ==> is_translation_inst(
                            fields@[j],
                            *inst,
                            #[trigger] out@[j],
                        ),
                decreases fields.len() - i,
            {
                proof {
                    broadcast use vstd::std_specs::vec::axiom_vec_index_decreases;
                    assert(decreases_to!(*src => src->Adt_fields));
                    assert(decreases_to!(src->Adt_fields => src->Adt_fields@[i as int]));
                    assert(decreases_to!(*src => fields@[i as int]));
                }
                match translate(&fields[i], inst) {
                    Ok(t) => {
                        out.push(t);
                        proof {
                            assert(resolves(fields@[i as int], *inst));
                            assert(is_translation_inst(fields@[i as int], *inst, out@[i as int]));
                        }
                    },
                    Err(e) => {
                        return Err(e);
                    },
                }
                i += 1;
            }
            Ok(Type::Class { name: name.clone(), fields: out })
        },
        _ => translate_concrete(src),
    }
}

/// A concrete source type always resolves, under any instantiation, and its
/// translations with and without an instantiation agree: translation is total
/// on the fully-instantiated fragment of the source type language.
pub proof fn lemma_concrete_resolves(t: SourceType, inst: Instantiation, tgt: Type)
    requires
        concrete(t),
    ensures
        resolves(t, inst),
        is_translation(t, tgt) == is_translation_inst(t, inst, tgt),
    decreases t,
{
    match t {
        SourceType::RawPtr(p) => {
            if let Type::Ptr(q) = tgt {
                lemma_concrete_resolves(*p, inst, *q);
            } else {
                lemma_concrete_resolves(*p, inst, tgt);
            }
        },
        SourceType::Ref(p) => {
            if let Type::Ptr(q) = tgt {
                lemma_concrete_resolves(*p, inst, *q);
            } else {
                lemma_concrete_resolves(*p, inst, tgt);
            }
        },
        SourceType::Adt { name, fields } => {
            assert forall|i: int| 0 <= i < fields@.len() implies resolves(
                #[trigger] fields@[i],
                inst,
            ) by {
                lemma_concrete_resolves(fields@[i], inst, tgt);
            }
            if let Type::Class { name: cname, fields: cfields } = tgt {
                if cfields@.len() == fields@.len() {
                    assert forall|i: int| 0 <= i < fields@.len() implies (is_translation(
                        #[trigger] fields@[i],
                        #[trigger] cfields@[i],
                    ) == is_translation_inst(fields@[i], inst, cfields@[i])) by {
                        lemma_concrete_resolves(fields@[i], inst, cfields@[i]);
                    }
                }
            }
        },
        _ => {},
    }
}

} // verus!
