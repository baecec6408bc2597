//! Lowering of memory locations: the address producer (push the location's
//! address) and the value producer (push the location's value), two pure
//! functions of (place, context) with a documented stack effect of exactly
//! one pushed value each.

use vstd::prelude::*;
use crate::cil_op::{CILOp, FieldDescriptor, FieldName, lemma_stack_delta_one, lemma_stack_delta_push,
    op_stack_delta, seq_stack_delta};
use crate::ir::{Body, Place, PlaceElem, lemma_prefix_resolves, place_base_ty, place_base_wf,
    place_proj_wf, place_ty_prefix, place_wf};
use crate::types::{Instantiation, SourceType, Type, instantiation_wf, is_translation_inst, resolves,
    translate};

verus! {

/// The instruction loading the value of a place's base slot: an argument
/// load for an argument slot, a local load (with re-based numbering) for a
/// local slot.
pub open spec fn local_load_op(p: Place, body: Body) -> CILOp {
    if p.local < body.arg_count {
        CILOp::LDArg(p.local)
    } else {
        CILOp::LDLoc((p.local - body.arg_count) as u32)
    }
}

/// The instruction loading the address of a place's base slot.
pub open spec fn local_addr_op(p: Place, body: Body) -> CILOp {
    if p.local < body.arg_count {
        CILOp::LDArgA(p.local)
    } else {
        CILOp::LDLocA((p.local - body.arg_count) as u32)
    }
}

/// The instruction closing a field-value load: a field load whose
/// descriptor names field `f` of the translated owner, at the translated
/// field type.
pub open spec fn field_load_matches(
    op: CILOp,
    owner_src: SourceType,
    field_src: SourceType,
    f: u32,
    inst: Instantiation,
) -> bool {
    op matches CILOp::LDField(fd) && fd.name == FieldName::Ordinal(f) && is_translation_inst(
        owner_src,
        inst,
        fd.owner,
    ) && is_translation_inst(field_src, inst, fd.tpe)
}

/// As `field_load_matches`, for a field-address load.
pub open spec fn field_addr_matches(
    op: CILOp,
    owner_src: SourceType,
    field_src: SourceType,
    f: u32,
    inst: Instantiation,
) -> bool {
    op matches CILOp::LDFieldA(fd) && fd.name == FieldName::Ordinal(f) && is_translation_inst(
        owner_src,
        inst,
        fd.owner,
    ) && is_translation_inst(field_src, inst, fd.tpe)
}

/// `ops` realizes the address producer for the place restricted to its
/// first `n` projection steps: the sequence pushes exactly the address of
/// that location. The address of a dereference is the value of the
/// dereferenced pointer; the address of a field is the owner's address
/// followed by a field-address load.
pub open spec fn addr_ops_upto(
    p: Place,
    body: Body,
    inst: Instantiation,
    n: int,
    ops: Seq<CILOp>,
) -> bool
    decreases n, 0int,
{
    if n <= 0 {
        ops == seq![local_addr_op(p, body)]
    } else {
        match p.projection@[n - 1] {
            PlaceElem::Deref => value_ops_upto(p, body, inst, n - 1, ops),
            PlaceElem::Field(f) => ops.len() >= 1 && addr_ops_upto(
                p,
                body,
                inst,
                n - 1,
                ops.drop_last(),
            ) && field_addr_matches(
                ops.last(),
                place_ty_prefix(place_base_ty(p, body), p.projection@, n - 1),
                place_ty_prefix(place_base_ty(p, body), p.projection@, n),
                f,
                inst,
            ),
        }
    }
}

/// `ops` realizes the value producer for the place restricted to its first
/// `n` projection steps: the sequence pushes exactly the value of that
/// location, at the location's translated type. The value of a dereference
/// is an indirect load through the pointer's value; the value of a field is
/// a field load through the owner's address.
pub open spec fn value_ops_upto(
    p: Place,
    body: Body,
    inst: Instantiation,
    n: int,
    ops: Seq<CILOp>,
) -> bool
    decreases n, 1int,
{
    if n <= 0 {
        ops == seq![local_load_op(p, body)]
    } else {
        match p.projection@[n - 1] {
            PlaceElem::Deref => ops.len() >= 1 && value_ops_upto(
                p,
                body,
                inst,
                n - 1,
                ops.drop_last(),
            ) && (ops.last() matches CILOp::LDInd { tpe, volatile } && !volatile
                && is_translation_inst(
                place_ty_prefix(place_base_ty(p, body), p.projection@, n),
                inst,
                tpe,
            )),
            PlaceElem::Field(f) => ops.len() >= 1 && addr_ops_upto(
                p,
                body,
                inst,
                n - 1,
                ops.drop_last(),
            ) && field_load_matches(
                ops.last(),
                place_ty_prefix(place_base_ty(p, body), p.projection@, n - 1),
                place_ty_prefix(place_base_ty(p, body), p.projection@, n),
                f,
                inst,
            ),
        }
    }
}

/// `ops` realizes the address producer for the whole place.
pub open spec fn address_ops(p: Place, body: Body, inst: Instantiation, ops: Seq<CILOp>) -> bool {
    addr_ops_upto(p, body, inst, p.projection@.len() as int, ops)
}

/// `ops` realizes the value producer for the whole place.
pub open spec fn value_ops(p: Place, body: Body, inst: Instantiation, ops: Seq<CILOp>) -> bool {
    value_ops_upto(p, body, inst, p.projection@.len() as int, ops)
}

/// Any sequence the address-producer relation admits pushes exactly one
/// value — the location's address — and any sequence the value-producer
/// relation admits pushes exactly one value of the location's type: the
/// stack effect of both producers is one pushed value, whatever the place.
pub proof fn lemma_producer_stack_effect(
    p: Place,
    body: Body,
    inst: Instantiation,
    n: int,
    ops: Seq<CILOp>,
)
    requires
        addr_ops_upto(p, body, inst, n, ops) || value_ops_upto(p, body, inst, n, ops),
    ensures
        seq_stack_delta(ops) == 1,
    decreases n,
{
    if n <= 0 {
        if addr_ops_upto(p, body, inst, n, ops) {
            lemma_stack_delta_one(local_addr_op(p, body));
        } else {
            lemma_stack_delta_one(local_load_op(p, body));
        }
    } else {
        match p.projection@[n - 1] {
            PlaceElem::Deref => {
                if addr_ops_upto(p, body, inst, n, ops) {
                    lemma_producer_stack_effect(p, body, inst, n - 1, ops);
                } else {
                    lemma_producer_stack_effect(p, body, inst, n - 1, ops.drop_last());
                    lemma_stack_delta_push(ops.drop_last(), ops.last());
                    assert(ops.drop_last().push(ops.last()) =~= ops);
                }
            },
            PlaceElem::Field(_) => {
                lemma_producer_stack_effect(p, body, inst, n - 1, ops.drop_last());
                lemma_stack_delta_push(ops.drop_last(), ops.last());
                assert(ops.drop_last().push(ops.last()) =~= ops);
            },
        }
    }
}

/// The source type of a whole place, looked up in the enclosing body.
pub fn place_ty<'a>(place: &Place, body: &'a Body) -> (r: &'a SourceType)
    requires
        place_wf(*place, *body),
    ensures
        *r == crate::ir::place_ty_spec(*place, *body),
{
    place_ty_upto(place, body, place.projection.len())
}

/// The source type of the place after its first `n` projection steps,
/// looked up in the enclosing body.
pub fn place_ty_upto<'a>(place: &Place, body: &'a Body, n: usize) -> (r: &'a SourceType)
    requires
        place_base_wf(*place, *body),
        n <= place.projection@.len(),
        place_proj_wf(place_base_ty(*place, *body), place.projection@, n as int),
    ensures
        *r == place_ty_prefix(place_base_ty(*place, *body), place.projection@, n as int),
    decreases n,
{
    if n == 0 {
        &body.locals[place.local as usize]
    } else {
        let prev = place_ty_upto(place, body, n - 1);
        match (&place.projection[n - 1], prev) {
            (PlaceElem::Deref, SourceType::RawPtr(b)) => &*b,
            (PlaceElem::Deref, SourceType::Ref(b)) => &*b,
            (PlaceElem::Field(f), SourceType::Adt { name: _, fields }) => &fields[*f as usize],
            _ => vstd::pervasive::unreached(),
        }
    }
}

/// Translates the type of a whole place; never fails for a well-formed
/// place over a resolved body.
pub fn translate_place_ty(place: &Place, body: &Body, inst: &Instantiation) -> (r: Type)
    requires
        place_wf(*place, *body),
        resolves(place_base_ty(*place, *body), *inst),
        instantiation_wf(*inst),
    ensures
        is_translation_inst(crate::ir::place_ty_spec(*place, *body), *inst, r),
{
    translate_prefix_ty(place, body, inst, place.projection.len())
}

/// Translates the place's type after `n` steps; never fails for a
/// well-formed place over a resolved body.
fn translate_prefix_ty(place: &Place, body: &Body, inst: &Instantiation, n: usize) -> (r: Type)
    requires
        place_base_wf(*place, *body),
        n <= place.projection@.len(),
        place_proj_wf(place_base_ty(*place, *body), place.projection@, n as int),
        resolves(place_base_ty(*place, *body), *inst),
        instantiation_wf(*inst),
    ensures
        is_translation_inst(
            place_ty_prefix(place_base_ty(*place, *body), place.projection@, n as int),
            *inst,
            r,
        ),
{
    let ty = place_ty_upto(place, body, n);
    proof {
        lemma_prefix_resolves(place_base_ty(*place, *body), place.projection@, n as int, *inst);
    }
    match translate(ty, inst) {
        Ok(t) => t,
        Err(_) => vstd::pervasive::unreached(),
    }
}

/// Produces the instructions pushing the address of the given memory
/// location; the sequence's net stack effect is exactly one pushed value.
pub fn place_address(place: &Place, body: &Body, inst: &Instantiation) -> (r: Vec<CILOp>)
    requires
        place_wf(*place, *body),
        resolves(place_base_ty(*place, *body), *inst),
        instantiation_wf(*inst),
    ensures
        address_ops(*place, *body, *inst, r@),
        seq_stack_delta(r@) == 1,
{
    let n = place.projection.len();
    let r = place_address_upto(place, body, inst, n);
    proof {
        lemma_producer_stack_effect(*place, *body, *inst, n as int, r@);
    }
    r
}

/// Produces the instructions pushing the value of the given memory
/// location; the sequence's net stack effect is exactly one pushed value.
pub fn place_get(place: &Place, body: &Body, inst: &Instantiation) -> (r: Vec<CILOp>)
    requires
        place_wf(*place, *body),
        resolves(place_base_ty(*place, *body), *inst),
        instantiation_wf(*inst),
    ensures
        value_ops(*place, *body, *inst, r@),
        seq_stack_delta(r@) == 1,
{
    let n = place.projection.len();
    let r = place_get_upto(place, body, inst, n);
    proof {
        lemma_producer_stack_effect(*place, *body, *inst, n as int, r@);
    }
    r
}

/// Address producer for the place restricted to its first `n` steps.
fn place_address_upto(place: &Place, body: &Body, inst: &Instantiation, n: usize) -> (r: Vec<
    CILOp>)
    requires
        place_base_wf(*place, *body),
        n <= place.projection@.len(),
        place_proj_wf(place_base_ty(*place, *body), place.projection@, n as int),
        resolves(place_base_ty(*place, *body), *inst),
        instantiation_wf(*inst),
    ensures
        addr_ops_upto(*place, *body, *inst, n as int, r@),
    decreases n, 0int,
{
    if n == 0 {
        let mut ops: Vec<CILOp> = Vec::new();
        if place.local < body.arg_count {
            ops.push(CILOp::LDArgA(place.local));
        } else {
            ops.push(CILOp::LDLocA(place.local - body.arg_count));
        }
        ops
    } else {
        match &place.projection[n - 1] {
            PlaceElem::Deref => place_get_upto(place, body, inst, n - 1),
            PlaceElem::Field(f) => {
                let owner = translate_prefix_ty(place, body, inst, n - 1);
                let tpe = translate_prefix_ty(place, body, inst, n);
                let mut ops = place_address_upto(place, body, inst, n - 1);
                let ghost prefix = ops@;
                ops.push(CILOp::LDFieldA(FieldDescriptor::new(owner, tpe, FieldName::Ordinal(*f))));
                proof {
                    assert(ops@.drop_last() =~= prefix);
                }
                ops
            },
        }
    }
}

/// Value producer for the place restricted to its first `n` steps.
fn place_get_upto(place: &Place, body: &Body, inst: &Instantiation, n: usize) -> (r: Vec<CILOp>)
    requires
        place_base_wf(*place, *body),
        n <= place.projection@.len(),
        place_proj_wf(place_base_ty(*place, *body), place.projection@, n as int),
        resolves(place_base_ty(*place, *body), *inst),
        instantiation_wf(*inst),
    ensures
        value_ops_upto(*place, *body, *inst, n as int, r@),
    decreases n, 1int,
{
    if n == 0 {
        let mut ops: Vec<CILOp> = Vec::new();
        if place.local < body.arg_count {
            ops.push(CILOp::LDArg(place.local));
        } else {
            ops.push(CILOp::LDLoc(place.local - body.arg_count));
        }
        ops
    } else {
        match &place.projection[n - 1] {
            PlaceElem::Deref => {
                let tpe = translate_prefix_ty(place, body, inst, n);
                let mut ops = place_get_upto(place, body, inst, n - 1);
                let ghost prefix = ops@;
                ops.push(CILOp::LDInd { tpe, volatile: false });
                proof {
                    assert(ops@.drop_last() =~= prefix);
                }
                ops
            },
            PlaceElem::Field(f) => {
                let owner = translate_prefix_ty(place, body, inst, n - 1);
                let tpe = translate_prefix_ty(place, body, inst, n);
                let mut ops = place_address_upto(place, body, inst, n - 1);
                let ghost prefix = ops@;
                ops.push(CILOp::LDField(FieldDescriptor::new(owner, tpe, FieldName::Ordinal(*f))));
                proof {
                    assert(ops@.drop_last() =~= prefix);
                }
                ops
            },
        }
    }
}

} // verus!
