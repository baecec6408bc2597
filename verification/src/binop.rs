//! Lowering of binary operators: both operands are materialized in order,
//! then one arithmetic/comparison instruction combines them, selected by the
//! operator token and the signedness of the operand type.

use vstd::prelude::*;
use crate::cil_op::{CILOp, lemma_stack_delta_concat, lemma_stack_delta_push, seq_stack_delta};
use crate::ir::{BinOp, Body, Operand, operand_ty_spec};
use crate::operand::{handle_operand, operand_input_ok, operand_ops};
use crate::types::{Instantiation, SourceType, instantiation_wf};

verus! {

/// Signedness of a source scalar: only the signed integers are signed;
/// unsigned integers, booleans and pointers take the unsigned instruction
/// variants.
pub open spec fn source_signed(t: SourceType) -> bool {
    t matches SourceType::Int(_)
}

/// The instruction combining two stack values for the given operator token,
/// over operands whose type's signedness is `signed`: division, remainder,
/// right shift and the magnitude comparisons come in signed and unsigned
/// variants, every other operator is signedness-agnostic.
pub open spec fn binop_select(op: BinOp, signed: bool) -> CILOp {
    match op {
        BinOp::Add => CILOp::Add,
        BinOp::Sub => CILOp::Sub,
        BinOp::Mul => CILOp::Mul,
        BinOp::Div => if signed {
            CILOp::Div
        } else {
            CILOp::DivUn
        },
        BinOp::Rem => if signed {
            CILOp::Rem
        } else {
            CILOp::RemUn
        },
        BinOp::BitAnd => CILOp::And,
        BinOp::BitOr => CILOp::Or,
        BinOp::BitXor => CILOp::XOr,
        BinOp::Shl => CILOp::Shl,
        BinOp::Shr => if signed {
            CILOp::Shr
        } else {
            CILOp::ShrUn
        },
        BinOp::Eq => CILOp::Eq,
        BinOp::Lt => if signed {
            CILOp::Lt
        } else {
            CILOp::LtUn
        },
        BinOp::Gt => if signed {
            CILOp::Gt
        } else {
            CILOp::GtUn
        },
    }
}

/// `ops` realizes the lowering of `a op b`: first operand, second operand,
/// then the instruction selected by the operator token and the first
/// operand's signedness.
pub open spec fn binop_ops(
    op: BinOp,
    a: Operand,
    b: Operand,
    body: Body,
    inst: Instantiation,
    ops: Seq<CILOp>,
) -> bool {
    ops.len() >= 1 && ops.last() == binop_select(op, source_signed(operand_ty_spec(a, body)))
        && exists|k: int|
        0 <= k <= ops.len() - 1 && operand_ops(a, body, inst, #[trigger] ops.subrange(0, k))
            && operand_ops(b, body, inst, ops.subrange(k, ops.len() - 1))
}

/// Exec mirror of `source_signed`.
fn source_signed_exec(t: &SourceType) -> (r: bool)
    ensures
        r == source_signed(*t),
{
    matches!(t, SourceType::Int(_))
}

/// Lowers `a op b` without overflow checking: both operands in order, then
/// the selected combining instruction; net stack effect one pushed value.
pub fn binop_unchecked(
    op: BinOp,
    a: &Operand,
    b: &Operand,
    body: &Body,
    inst: &Instantiation,
) -> (r: Vec<CILOp>)
    requires
        operand_input_ok(*a, *body, *inst),
        operand_input_ok(*b, *body, *inst),
        instantiation_wf(*inst),
    ensures
        binop_ops(op, *a, *b, *body, *inst, r@),
        seq_stack_delta(r@) == 1,
{
    let signed = source_signed_exec(crate::operand::operand_ty(a, body));
    let selected = binop_select_exec(op, signed);
    let mut ops = handle_operand(a, body, inst);
    let ghost first = ops@;
    let mut second = handle_operand(b, body, inst);
    let ghost second_ops = second@;
    ops.append(&mut second);
    ops.push(selected);
    proof {
        let k = first.len() as int;
        assert(ops@.subrange(0, k) =~= first);
        assert(ops@.subrange(k, ops@.len() - 1) =~= second_ops);
        lemma_stack_delta_concat(first, second_ops);
        lemma_stack_delta_push(first + second_ops, selected);
        assert((first + second_ops).push(selected) =~= ops@);
    }
    ops
}

/// Exec mirror of `binop_select`.
fn binop_select_exec(op: BinOp, signed: bool) -> (r: CILOp)
    ensures
        r == binop_select(op, signed),
{
    match op {
        BinOp::Add => CILOp::Add,
        BinOp::Sub => CILOp::Sub,
        BinOp::Mul => CILOp::Mul,
        BinOp::Div => if signed {
            CILOp::Div
        } else {
            CILOp::DivUn
        },
        BinOp::Rem => if signed {
            CILOp::Rem
        } else {
            CILOp::RemUn
        },
        BinOp::BitAnd => CILOp::And,
        BinOp::BitOr => CILOp::Or,
        BinOp::BitXor => CILOp::XOr,
        BinOp::Shl => CILOp::Shl,
        BinOp::Shr => if signed {
            CILOp::Shr
        } else {
            CILOp::ShrUn
        },
        BinOp::Eq => CILOp::Eq,
        BinOp::Lt => if signed {
            CILOp::Lt
        } else {
            CILOp::LtUn
        },
        BinOp::Gt => if signed {
            CILOp::Gt
        } else {
            CILOp::GtUn
        },
    }
}

} // verus!
