//! The expression lowering engine: dispatches on every supported IR
//! expression kind and produces the ordered instruction sequence realizing
//! it, or signals the backend-fatal condition that prevents it.

use vstd::prelude::*;
use crate::aggregate::{aggregate_input_ok, aggregate_ops, handle_aggregate};
use crate::binop::{binop_ops, binop_unchecked};
use crate::casts::{int_to_float_ops, int_to_int_ops, lemma_conversion_stack_neutral,
    lemma_translation_shape, float_to_int_ops, resolve_top, scalar_repr, src_float, src_int,
    src_native_int, src_raw_ptr};
use crate::cil_op::{CILOp, CallSite, FieldDescriptor, FieldName, call_stack_delta,
    lemma_stack_delta_concat, lemma_stack_delta_one, lemma_stack_delta_push, seq_stack_delta};
use crate::codegen_error::CodegenError;
use crate::ir::{Body, CastKind, NullOp, Operand, Place, Rvalue, lemma_prefix_resolves,
    operand_ty_spec, place_base_ty, place_ty_spec, place_wf};
use crate::operand::{handle_operand, operand_input_ok, operand_ops, operand_ty};
use crate::place::{address_ops, place_address, place_get, translate_place_ty, value_ops};
use crate::types::{FnSig, Instantiation, IntTy, SourceType, Type, UintTy, instantiation_wf,
    is_translation_inst, resolves, translate};
use crate::unop::{unop, unop_ops};

verus! {

/// A place read by lowering starts well-formed and from a resolved slot.
pub open spec fn place_input_ok(p: Place, body: Body, inst: Instantiation) -> bool {
    place_wf(p, body) && resolves(place_base_ty(p, body), inst)
}

/// What lowering relies on for each expression kind, mirroring the host
/// compiler's guarantees: places are well-formed over the body, operands
/// are well-formed, a discriminant or length query is applied to an
/// aggregate-typed location, and an aggregate literal fits its destination.
/// Violations of these are programmer errors of the caller, not runtime
/// conditions of the backend.
pub open spec fn rvalue_input_ok(rv: Rvalue, tgt: Place, body: Body, inst: Instantiation) -> bool {
    match rv {
        Rvalue::Use(o) => operand_input_ok(o, body, inst),
        Rvalue::CopyForDeref(p) => place_input_ok(p, body, inst),
        Rvalue::Ref(p) => place_input_ok(p, body, inst),
        Rvalue::AddressOf(p) => place_input_ok(p, body, inst),
        Rvalue::Cast(_, o, _) => operand_input_ok(o, body, inst),
        Rvalue::BinaryOp(_, a, b) => operand_input_ok(a, body, inst) && operand_input_ok(
            b,
            body,
            inst,
        ),
        Rvalue::UnaryOp(_, a) => operand_input_ok(a, body, inst),
        Rvalue::NullaryOp(_, _) => true,
        Rvalue::Aggregate(kind, operands) => aggregate_input_ok(tgt, body, inst, kind, operands@),
        Rvalue::Discriminant(p) => place_input_ok(p, body, inst) && place_ty_spec(p, body)
            matches SourceType::Adt { .. },
        Rvalue::Len(p) => place_input_ok(p, body, inst) && place_ty_spec(p, body)
            matches SourceType::Adt { .. },
        Rvalue::Repeat(_, _) => true,
    }
}

/// Both endpoints of a bit-reinterpretation must resolve to the one covered
/// pairing: a raw pointer on one side and a native-word integer on the
/// other (both already occupy one machine word and share representation).
pub open spec fn reinterpret_pair_ok(s: SourceType, d: SourceType, inst: Instantiation) -> bool {
    (src_native_int(s, inst) && src_raw_ptr(d, inst)) || (src_raw_ptr(s, inst) && src_native_int(
        d,
        inst,
    ))
}

/// The pairs the integer-to-integer cast table covers, read off the source
/// types: two integers, or a pointer paired with a native-word integer.
pub open spec fn int_pair_covered_src(s: SourceType, d: SourceType, inst: Instantiation) -> bool {
    (src_int(s, inst) && src_int(d, inst)) || (crate::casts::src_ptr_like(s, inst)
        && src_native_int(d, inst)) || (src_native_int(s, inst) && crate::casts::src_ptr_like(
        d,
        inst,
    ))
}

/// The conversion tail of an integer-to-integer cast, as a function of the
/// source types: empty for the pointer reinterpretation pairings, the cast
/// engine's selection otherwise.
pub open spec fn int_cast_tail(s: SourceType, d: SourceType, inst: Instantiation) -> Seq<CILOp> {
    if src_int(s, inst) && src_int(d, inst) {
        int_to_int_ops(scalar_repr(s, inst), scalar_repr(d, inst))
    } else {
        Seq::empty()
    }
}

/// `ops` is the operand's lowering followed by exactly the given conversion
/// tail.
pub open spec fn cast_split(
    o: Operand,
    body: Body,
    inst: Instantiation,
    tail: Seq<CILOp>,
    ops: Seq<CILOp>,
) -> bool {
    ops.len() >= tail.len() && operand_ops(o, body, inst, ops.take(ops.len() - tail.len()))
        && ops.skip(ops.len() - tail.len()) == tail
}

/// `ops` reads the active-variant tag of the aggregate held at `p`: the
/// location's address, then a load of the distinguished single-byte tag
/// field of the translated owner.
pub open spec fn discriminant_ops(p: Place, body: Body, inst: Instantiation, ops: Seq<
    CILOp>) -> bool {
    ops.len() >= 1 && address_ops(p, body, inst, ops.drop_last()) && (ops.last()
        matches CILOp::LDField(fd) && fd.name == FieldName::Tag && fd.tpe == Type::U8
        && is_translation_inst(place_ty_spec(p, body), inst, fd.owner))
}

/// `ops` queries the length of the indexable location `p`: the location's
/// address, then an instance call to the translated owner's length-accessor
/// method, returning a native-word integer.
pub open spec fn len_ops(p: Place, body: Body, inst: Instantiation, ops: Seq<CILOp>) -> bool {
    ops.len() >= 1 && address_ops(p, body, inst, ops.drop_last()) && (ops.last()
        matches CILOp::Call(cs) && !cs.is_static && cs.name@ == "GetLength"@ && (cs.owner
        matches Some(c) && is_translation_inst(place_ty_spec(p, body), inst, c))
        && cs.signature.inputs@.len() == 0 && cs.signature.output == Type::USize)
}

/// The backend-fatal condition lowering the expression runs into, if any:
/// `UnresolvedGeneric` when a type carried on the node does not resolve
/// under the instantiation, `UnimplementedLowering` when the expression,
/// cast pairing or type query falls outside the covered tables. `None`
/// means lowering succeeds.
pub open spec fn rvalue_err(rv: Rvalue, body: Body, inst: Instantiation) -> Option<CodegenError> {
    match rv {
        Rvalue::Cast(CastKind::IntToInt, o, t) => if !resolves(t, inst) {
            Some(CodegenError::UnresolvedGeneric)
        } else if !int_pair_covered_src(operand_ty_spec(o, body), t, inst) {
            Some(CodegenError::UnimplementedLowering)
        } else {
            None
        },
        Rvalue::Cast(CastKind::FloatToInt, o, t) => if !resolves(t, inst) {
            Some(CodegenError::UnresolvedGeneric)
        } else if !(src_float(operand_ty_spec(o, body), inst) && src_int(t, inst)) {
            Some(CodegenError::UnimplementedLowering)
        } else {
            None
        },
        Rvalue::Cast(CastKind::IntToFloat, o, t) => if !resolves(t, inst) {
            Some(CodegenError::UnresolvedGeneric)
        } else if !(src_int(operand_ty_spec(o, body), inst) && src_float(t, inst)) {
            Some(CodegenError::UnimplementedLowering)
        } else {
            None
        },
        Rvalue::Cast(CastKind::Transmute, o, t) => if reinterpret_pair_ok(
            operand_ty_spec(o, body),
            t,
            inst,
        ) {
            None
        } else {
            Some(CodegenError::UnimplementedLowering)
        },
        Rvalue::Cast(CastKind::FloatToFloat, _, _) => Some(CodegenError::UnimplementedLowering),
        Rvalue::Cast(CastKind::PointerExposeAddress, _, _) => Some(
            CodegenError::UnimplementedLowering,
        ),
        Rvalue::NullaryOp(NullOp::SizeOf, t) => if !resolves(t, inst) {
            Some(CodegenError::UnresolvedGeneric)
        } else {
            None
        },
        Rvalue::NullaryOp(NullOp::AlignOf, _) => Some(CodegenError::UnimplementedLowering),
        Rvalue::Repeat(_, _) => Some(CodegenError::UnimplementedLowering),
        _ => None,
    }
}

/// `ops` realizes the lowering of the expression, by kind: value reads and
/// references delegate to the value and address producers, representation-
/// preserving pointer casts are a plain operand fetch, numeric casts append
/// the cast engine's conversion tail to the operand, a bit-reinterpretation
/// is an empty sequence, a size-of query is a single parameterized
/// instruction without operand evaluation, and aggregate construction,
/// discriminant reads and length queries take their dedicated shapes.
pub open spec fn rvalue_ops(
    rv: Rvalue,
    tgt: Place,
    body: Body,
    inst: Instantiation,
    ops: Seq<CILOp>,
) -> bool {
    match rv {
        Rvalue::Use(o) => operand_ops(o, body, inst, ops),
        Rvalue::CopyForDeref(p) => value_ops(p, body, inst, ops),
        Rvalue::Ref(p) => address_ops(p, body, inst, ops),
        Rvalue::AddressOf(p) => address_ops(p, body, inst, ops),
        Rvalue::Cast(CastKind::PtrToPtr, o, _) => operand_ops(o, body, inst, ops),
        Rvalue::Cast(CastKind::PointerCoercion, o, _) => operand_ops(o, body, inst, ops),
        Rvalue::Cast(CastKind::IntToInt, o, t) => cast_split(
            o,
            body,
            inst,
            int_cast_tail(operand_ty_spec(o, body), t, inst),
            ops,
        ),
        Rvalue::Cast(CastKind::FloatToInt, o, t) => cast_split(
            o,
            body,
            inst,
            float_to_int_ops(scalar_repr(operand_ty_spec(o, body), inst), scalar_repr(t, inst)),
            ops,
        ),
        Rvalue::Cast(CastKind::IntToFloat, o, t) => cast_split(
            o,
            body,
            inst,
            int_to_float_ops(scalar_repr(operand_ty_spec(o, body), inst), scalar_repr(t, inst)),
            ops,
        ),
        Rvalue::Cast(CastKind::Transmute, _, _) => ops == Seq::<CILOp>::empty(),
        Rvalue::Cast(CastKind::FloatToFloat, _, _) => false,
        Rvalue::Cast(CastKind::PointerExposeAddress, _, _) => false,
        Rvalue::BinaryOp(b, a, c) => binop_ops(b, a, c, body, inst, ops),
        Rvalue::UnaryOp(u, a) => unop_ops(u, a, body, inst, ops),
        Rvalue::NullaryOp(NullOp::SizeOf, t) => ops.len() == 1 && (ops[0]
            matches CILOp::SizeOf(tt) && is_translation_inst(t, inst, tt)),
        Rvalue::NullaryOp(NullOp::AlignOf, _) => false,
        Rvalue::Aggregate(kind, operands) => aggregate_ops(tgt, body, inst, kind, operands@, ops),
        Rvalue::Discriminant(p) => discriminant_ops(p, body, inst, ops),
        Rvalue::Len(p) => len_ops(p, body, inst, ops),
        Rvalue::Repeat(_, _) => false,
    }
}

/// Net stack effect of a successfully lowered expression: an aggregate
/// writes into its destination and a bit-reinterpretation emits nothing, so
/// both leave the stack as it was; every other kind pushes exactly one
/// value.
pub open spec fn rvalue_stack_delta(rv: Rvalue) -> int {
    match rv {
        Rvalue::Aggregate(_, _) => 0,
        Rvalue::Cast(CastKind::Transmute, _, _) => 0,
        _ => 1,
    }
}

/// Lowering a bit-reinterpretation between a raw pointer and a native-word
/// integer (either direction) yields the empty instruction sequence: the
/// value's representation is already the right one, and no instruction is
/// ever emitted for such a cast.
pub proof fn lemma_reinterpret_lowering_empty(
    rv: Rvalue,
    tgt: Place,
    body: Body,
    inst: Instantiation,
    ops: Seq<CILOp>,
)
    requires
        rv matches Rvalue::Cast(CastKind::Transmute, _, _),
        rvalue_ops(rv, tgt, body, inst, ops),
    ensures
        ops == Seq::<CILOp>::empty(),
        seq_stack_delta(ops) == 0,
{
}

/// Resolves a top-level parameter occurrence at run time.
fn resolve_top_exec<'a>(t: &'a SourceType, inst: &'a Instantiation) -> (r: &'a SourceType)
    ensures
        *r == resolve_top(*t, *inst),
{
    match t {
        SourceType::Param(i) => {
            let idx = *i as usize;
            if idx < inst.args.len() {
                &inst.args[idx]
            } else {
                t
            }
        },
        _ => t,
    }
}

/// Establishes that an operand's source type resolves under the
/// instantiation.
proof fn lemma_operand_ty_resolves(o: Operand, body: Body, inst: Instantiation)
    requires
        operand_input_ok(o, body, inst),
    ensures
        resolves(operand_ty_spec(o, body), inst),
{
    match o {
        Operand::Copy(p) => {
            lemma_prefix_resolves(
                place_base_ty(p, body),
                p.projection@,
                p.projection@.len() as int,
                inst,
            );
        },
        Operand::Move(p) => {
            lemma_prefix_resolves(
                place_base_ty(p, body),
                p.projection@,
                p.projection@.len() as int,
                inst,
            );
        },
        Operand::Constant(_) => {},
    }
}

/// Lowers one typed IR expression node, in the context of its enclosing
/// method body, the generic instantiation bound to the current function and
/// the destination location, into the ordered instruction sequence
/// realizing it. Every failure is detected and signalled here: an
/// unresolved generic parameter or an uncovered lowering case aborts this
/// expression with the corresponding error, never with a silently wrong
/// sequence.
pub fn handle_rvalue(
    rvalue: &Rvalue,
    target_location: &Place,
    method: &Body,
    method_instance: &Instantiation,
) -> (r: Result<Vec<CILOp>, CodegenError>)
    requires
        rvalue_input_ok(*rvalue, *target_location, *method, *method_instance),
        instantiation_wf(*method_instance),
    ensures
        match r {
            Ok(ops) => rvalue_err(*rvalue, *method, *method_instance) is None && rvalue_ops(
                *rvalue,
                *target_location,
                *method,
                *method_instance,
                ops@,
            ) && seq_stack_delta(ops@) == rvalue_stack_delta(*rvalue),
            Err(e) => rvalue_err(*rvalue, *method, *method_instance) == Some(e),
        },
{
    match rvalue {
        Rvalue::Use(operand) => Ok(handle_operand(operand, method, method_instance)),
        Rvalue::CopyForDeref(place) => Ok(place_get(place, method, method_instance)),
        Rvalue::Ref(place) => Ok(place_address(place, method, method_instance)),
        Rvalue::AddressOf(place) => Ok(place_address(place, method, method_instance)),
        Rvalue::Cast(CastKind::PtrToPtr, operand, _) => Ok(
            handle_operand(operand, method, method_instance),
        ),
        Rvalue::Cast(CastKind::PointerCoercion, operand, _) => Ok(
            handle_operand(operand, method, method_instance),
        ),
        Rvalue::Cast(CastKind::IntToInt, operand, target) => {
            lower_numeric_cast(CastKind::IntToInt, operand, target, method, method_instance, Ghost(*target_location))
        },
        Rvalue::Cast(CastKind::FloatToInt, operand, target) => {
            lower_numeric_cast(CastKind::FloatToInt, operand, target, method, method_instance, Ghost(*target_location))
        },
        Rvalue::Cast(CastKind::IntToFloat, operand, target) => {
            lower_numeric_cast(CastKind::IntToFloat, operand, target, method, method_instance, Ghost(*target_location))
        },
        Rvalue::Cast(CastKind::Transmute, operand, dst) => {
            let src_ty = operand_ty(operand, method);
            let s = resolve_top_exec(src_ty, method_instance);
            let d = resolve_top_exec(dst, method_instance);
            match (s, d) {
                (SourceType::Int(IntTy::Isize), SourceType::RawPtr(_))
                    | (SourceType::Uint(UintTy::Usize), SourceType::RawPtr(_))
                    | (SourceType::RawPtr(_), SourceType::Int(IntTy::Isize))
                    | (SourceType::RawPtr(_), SourceType::Uint(UintTy::Usize)) => Ok(Vec::new()),
                _ => Err(CodegenError::UnimplementedLowering),
            }
        },
        Rvalue::Cast(CastKind::FloatToFloat, _, _) => Err(CodegenError::UnimplementedLowering),
        Rvalue::Cast(CastKind::PointerExposeAddress, _, _) => Err(
            CodegenError::UnimplementedLowering,
        ),
        Rvalue::BinaryOp(op, a, b) => Ok(binop_unchecked(*op, a, b, method, method_instance)),
        Rvalue::UnaryOp(op, a) => Ok(unop(*op, a, method, method_instance)),
        Rvalue::NullaryOp(NullOp::SizeOf, ty) => match translate(ty, method_instance) {
            Ok(t) => {
                let mut ops: Vec<CILOp> = Vec::new();
                proof {
                    lemma_stack_delta_one(CILOp::SizeOf(t));
                }
                ops.push(CILOp::SizeOf(t));
                Ok(ops)
            },
            Err(e) => Err(e),
        },
        Rvalue::NullaryOp(NullOp::AlignOf, _) => Err(CodegenError::UnimplementedLowering),
        Rvalue::Aggregate(kind, operands) => Ok(
            handle_aggregate(target_location, *kind, operands, method, method_instance),
        ),
        Rvalue::Discriminant(place) => {
            let owner = translate_place_ty(place, method, method_instance);
            let mut ops = place_address(place, method, method_instance);
            let ghost prefix = ops@;
            let fd = FieldDescriptor::new(owner, Type::U8, FieldName::Tag);
            ops.push(CILOp::LDField(fd));
            proof {
                assert(ops@.drop_last() =~= prefix);
                lemma_stack_delta_push(prefix, ops@.last());
                assert(prefix.push(ops@.last()) =~= ops@);
            }
            Ok(ops)
        },
        Rvalue::Len(place) => {
            let owner = translate_place_ty(place, method, method_instance);
            let mut ops = place_address(place, method, method_instance);
            let ghost prefix = ops@;
            let signature = FnSig::new(Vec::new(), Type::USize);
            let cs = CallSite::resolve(Some(owner), make_name_get_length(), signature, false);
            proof {
                assert(call_stack_delta(cs) == 0);
            }
            ops.push(CILOp::Call(cs));
            proof {
                assert(ops@.drop_last() =~= prefix);
                lemma_stack_delta_push(prefix, ops@.last());
                assert(prefix.push(ops@.last()) =~= ops@);
            }
            Ok(ops)
        },
        Rvalue::Repeat(_, _) => Err(CodegenError::UnimplementedLowering),
    }
}

/// The name of the length-accessor method every indexable class-typed
/// target type exposes.
fn make_name_get_length() -> (r: String)
    ensures
        r@ == "GetLength"@,
{
    broadcast use vstd::string::to_string_from_display_ensures_for_str;

    "GetLength".to_string()
}

/// Lowers one of the three numeric cast kinds: the operand's value, then
/// the cast engine's conversion tail for the translated endpoint types.
fn lower_numeric_cast(
    kind: CastKind,
    operand: &Operand,
    target: &SourceType,
    method: &Body,
    method_instance: &Instantiation,
    Ghost(tgt): Ghost<Place>,
) -> (r: Result<Vec<CILOp>, CodegenError>)
    requires
        operand_input_ok(*operand, *method, *method_instance),
        instantiation_wf(*method_instance),
        kind == CastKind::IntToInt || kind == CastKind::FloatToInt || kind
            == CastKind::IntToFloat,
    ensures
        match r {
            Ok(ops) => {
                let rv = Rvalue::Cast(kind, *operand, *target);
                rvalue_err(rv, *method, *method_instance) is None && rvalue_ops(
                    rv,
                    tgt,
                    *method,
                    *method_instance,
                    ops@,
                ) && seq_stack_delta(ops@) == 1
            },
            Err(e) => rvalue_err(Rvalue::Cast(kind, *operand, *target), *method, *method_instance)
                == Some(e),
        },
{
    let src_ty = operand_ty(operand, method);
    proof {
        lemma_operand_ty_resolves(*operand, *method, *method_instance);
    }
    let src_t = match translate(src_ty, method_instance) {
        Ok(t) => t,
        Err(_) => vstd::pervasive::unreached(),
    };
    let tgt_t = match translate(target, method_instance) {
        Ok(t) => t,
        Err(e) => {
            return Err(e);
        },
    };
    proof {
        lemma_translation_shape(*src_ty, *method_instance, src_t);
        lemma_translation_shape(*target, *method_instance, tgt_t);
    }
    let tail = match kind {
        CastKind::IntToInt => crate::casts::int_to_int(&src_t, &tgt_t),
        CastKind::FloatToInt => crate::casts::float_to_int(&src_t, &tgt_t),
        _ => crate::casts::int_to_float(&src_t, &tgt_t),
    };
    let mut tail = match tail {
        Ok(t) => t,
        Err(e) => {
            return Err(e);
        },
    };
    let ghost tail_ops = tail@;
    let mut ops = handle_operand(operand, method, method_instance);
    let ghost prefix = ops@;
    ops.append(&mut tail);
    proof {
        assert(ops@.take(ops@.len() - tail_ops.len()) =~= prefix);
        assert(ops@.skip(ops@.len() - tail_ops.len()) =~= tail_ops);
        lemma_stack_delta_concat(prefix, tail_ops);
        lemma_conversion_stack_neutral(src_t, tgt_t);
    }
    Ok(ops)
}

} // verus!
