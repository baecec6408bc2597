//! Lowering of aggregate construction: a struct or enum-variant literal is
//! written field by field into the destination location, in source
//! declaration order, with the discriminant tag initialized first for
//! tagged variants.

use vstd::prelude::*;
use crate::cil_op::{CILOp, FieldDescriptor, FieldName, lemma_stack_delta_concat,
    lemma_stack_delta_push, seq_stack_delta};
use crate::ir::{AggregateKind, Body, Operand, Place, place_base_ty, place_ty_spec, place_wf};
use crate::operand::{handle_operand, operand_input_ok, operand_ops};
use crate::place::{address_ops, place_address, translate_place_ty};
use crate::types::{Instantiation, SourceType, Type, instantiation_wf, is_translation_inst,
    resolves, translate};

verus! {

/// `ops` initializes the destination's discriminant tag to `v`: the
/// destination's address, the tag value, then a store to the distinguished
/// tag field, assumed single-byte (a known simplification: the general rule
/// would derive the tag width from the variant count).
pub open spec fn tag_write_ok(
    tgt: Place,
    body: Body,
    inst: Instantiation,
    v: u32,
    ops: Seq<CILOp>,
) -> bool {
    ops.len() >= 2 && (ops.last() matches CILOp::STField(fd) && fd.name == FieldName::Tag
        && fd.tpe == Type::U8 && is_translation_inst(place_ty_spec(tgt, body), inst, fd.owner))
        && ops[ops.len() - 2] == CILOp::LDConstI32(v as i32) && address_ops(
        tgt,
        body,
        inst,
        ops.take(ops.len() - 2),
    )
}

/// `ops` writes field `f` of the destination: the destination's address,
/// the field operand's value, then a store to that field of the translated
/// owner, at the translated field type.
pub open spec fn field_write_ok(
    tgt: Place,
    body: Body,
    inst: Instantiation,
    f: u32,
    operand: Operand,
    ops: Seq<CILOp>,
) -> bool {
    ops.len() >= 1 && (ops.last() matches CILOp::STField(fd) && fd.name == FieldName::Ordinal(f)
        && is_translation_inst(place_ty_spec(tgt, body), inst, fd.owner) && (place_ty_spec(
        tgt,
        body,
    ) matches SourceType::Adt { name: _, fields } && f < fields@.len() && is_translation_inst(
        fields@[f as int],
        inst,
        fd.tpe,
    ))) && exists|k: int|
        0 <= k <= ops.len() - 1 && address_ops(tgt, body, inst, #[trigger] ops.subrange(0, k))
            && operand_ops(operand, body, inst, ops.subrange(k, ops.len() - 1))
}

/// `ops` realizes the aggregate construction restricted to the first `n`
/// field writes (after the tag initialization, for a tagged variant): the
/// field writes appear in source declaration order, back to back.
pub open spec fn aggregate_ops_upto(
    tgt: Place,
    body: Body,
    inst: Instantiation,
    kind: AggregateKind,
    operands: Seq<Operand>,
    n: int,
    ops: Seq<CILOp>,
) -> bool
    decreases n,
{
    if n <= 0 {
        match kind {
            AggregateKind::Struct => ops == Seq::<CILOp>::empty(),
            AggregateKind::Variant(v) => tag_write_ok(tgt, body, inst, v, ops),
        }
    } else {
        exists|k: int|
            0 <= k <= ops.len() && aggregate_ops_upto(
                tgt,
                body,
                inst,
                kind,
                operands,
                n - 1,
                #[trigger] ops.subrange(0, k),
            ) && field_write_ok(
                tgt,
                body,
                inst,
                (n - 1) as u32,
                operands[n - 1],
                ops.subrange(k, ops.len() as int),
            )
    }
}

/// `ops` realizes the whole aggregate construction.
pub open spec fn aggregate_ops(
    tgt: Place,
    body: Body,
    inst: Instantiation,
    kind: AggregateKind,
    operands: Seq<Operand>,
    ops: Seq<CILOp>,
) -> bool {
    aggregate_ops_upto(tgt, body, inst, kind, operands, operands.len() as int, ops)
}

/// The inputs aggregate lowering relies on: a well-formed, resolved
/// destination whose type is an aggregate with exactly one field per
/// operand, well-formed field operands, and a tag value that fits the
/// single-byte tag field.
pub open spec fn aggregate_input_ok(
    tgt: Place,
    body: Body,
    inst: Instantiation,
    kind: AggregateKind,
    operands: Seq<Operand>,
) -> bool {
    &&& place_wf(tgt, body)
    &&& resolves(place_base_ty(tgt, body), inst)
    &&& place_ty_spec(tgt, body) matches SourceType::Adt { name: _, fields } && fields@.len()
        == operands.len()
    &&& operands.len() <= 0xffff_ffff
    &&& forall|i: int| 0 <= i < operands.len() ==> operand_input_ok(#[trigger] operands[i], body, inst)
    &&& kind matches AggregateKind::Variant(v) ==> v <= 255
}

/// Lowers a struct or enum-variant literal: for a tagged variant the tag
/// field is initialized first, then every field operand is written into its
/// field of the destination, in source declaration order. The sequence
/// writes into the destination instead of pushing a value: its net stack
/// effect is zero.
pub fn handle_aggregate(
    tgt: &Place,
    kind: AggregateKind,
    operands: &Vec<Operand>,
    body: &Body,
    inst: &Instantiation,
) -> (r: Vec<CILOp>)
    requires
        aggregate_input_ok(*tgt, *body, *inst, kind, operands@),
        instantiation_wf(*inst),
    ensures
        aggregate_ops(*tgt, *body, *inst, kind, operands@, r@),
        seq_stack_delta(r@) == 0,
{
    let mut ops: Vec<CILOp> = match kind {
        AggregateKind::Struct => Vec::new(),
        AggregateKind::Variant(v) => {
            let owner = translate_place_ty(tgt, body, inst);
            let mut o = place_address(tgt, body, inst);
            let ghost addr = o@;
            o.push(CILOp::LDConstI32(v as i32));
            o.push(CILOp::STField(FieldDescriptor::new(owner, Type::U8, FieldName::Tag)));
            proof {
                assert(o@.take(o@.len() - 2) =~= addr);
                lemma_stack_delta_push(addr, CILOp::LDConstI32(v as i32));
                lemma_stack_delta_push(
                    addr.push(CILOp::LDConstI32(v as i32)),
                    o@.last(),
                );
                assert(addr.push(CILOp::LDConstI32(v as i32)).push(o@.last()) =~= o@);
            }
            o
        },
    };
    proof {
        assert(seq_stack_delta(Seq::<CILOp>::empty()) == 0);
    }
    let mut i: usize = 0;
    while i < operands.len()
        invariant
            aggregate_input_ok(*tgt, *body, *inst, kind, operands@),
            instantiation_wf(*inst),
            0 <= i <= operands@.len(),
            aggregate_ops_upto(*tgt, *body, *inst, kind, operands@, i as int, ops@),
            seq_stack_delta(ops@) == 0,
        decreases operands@.len() - i,
    {
        let owner = translate_place_ty(tgt, body, inst);
        let field_ty = aggregate_field_ty(tgt, body, i);
        proof {
            crate::ir::lemma_prefix_resolves(
                place_base_ty(*tgt, *body),
                tgt.projection@,
                tgt.projection@.len() as int,
                *inst,
            );
        }
        let tpe = match translate(field_ty, inst) {
            Ok(t) => t,
            Err(_) => vstd::pervasive::unreached(),
        };
        let mut w = place_address(tgt, body, inst);
        let ghost addr = w@;
        let mut v = handle_operand(&operands[i], body, inst);
        let ghost val = v@;
        w.append(&mut v);
        w.push(CILOp::STField(FieldDescriptor::new(owner, tpe, FieldName::Ordinal(i as u32))));
        let ghost wseq = w@;
        proof {
            let k = addr.len() as int;
            assert(wseq.subrange(0, k) =~= addr);
            assert(wseq.subrange(k, wseq.len() - 1) =~= val);
            assert(field_write_ok(*tgt, *body, *inst, i as u32, operands@[i as int], wseq));
            lemma_stack_delta_concat(addr, val);
            lemma_stack_delta_push(addr + val, wseq.last());
            assert((addr + val).push(wseq.last()) =~= wseq);
        }
        let ghost before = ops@;
        ops.append(&mut w);
        proof {
            let k = before.len() as int;
            assert(ops@.subrange(0, k) =~= before);
            assert(ops@.subrange(k, ops@.len() as int) =~= wseq);
            assert(aggregate_ops_upto(
                *tgt,
                *body,
                *inst,
                kind,
                operands@,
                i + 1,
                ops@,
            ));
            lemma_stack_delta_concat(before, wseq);
        }
        i += 1;
    }
    ops
}

/// The source type of field `i` of the aggregate the destination holds.
fn aggregate_field_ty<'a>(tgt: &Place, body: &'a Body, i: usize) -> (r: &'a SourceType)
    requires
        place_wf(*tgt, *body),
        place_ty_spec(*tgt, *body) matches SourceType::Adt { name: _, fields } && i
            < fields@.len(),
    ensures
        place_ty_spec(*tgt, *body) matches SourceType::Adt { name: _, fields } && *r == fields@[i as int],
{
    let adt = crate::place::place_ty(tgt, body);
    match adt {
        SourceType::Adt { name: _, fields } => &fields[i],
        _ => vstd::pervasive::unreached(),
    }
}

} // verus!
