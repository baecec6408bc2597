//! Lowering of unary operators: the operand is materialized, then one
//! instruction transforms it in place on the stack.

use vstd::prelude::*;
use crate::cil_op::{CILOp, lemma_stack_delta_push, seq_stack_delta};
use crate::ir::{Body, Operand, UnOp};
use crate::operand::{handle_operand, operand_input_ok, operand_ops};
use crate::types::{Instantiation, instantiation_wf};

verus! {

/// The instruction implementing a unary operator token.
pub open spec fn unop_select(op: UnOp) -> CILOp {
    match op {
        UnOp::Neg => CILOp::Neg,
        UnOp::Not => CILOp::Not,
    }
}

/// `ops` realizes the lowering of `op a`: the operand, then the operator's
/// instruction.
pub open spec fn unop_ops(op: UnOp, a: Operand, body: Body, inst: Instantiation, ops: Seq<
    CILOp>) -> bool {
    ops.len() >= 1 && ops.last() == unop_select(op) && operand_ops(
        a,
        body,
        inst,
        ops.drop_last(),
    )
}

/// Lowers `op a`: the operand's value, then the transforming instruction;
/// net stack effect one pushed value.
pub fn unop(op: UnOp, a: &Operand, body: &Body, inst: &Instantiation) -> (r: Vec<CILOp>)
    requires
        operand_input_ok(*a, *body, *inst),
        instantiation_wf(*inst),
    ensures
        unop_ops(op, *a, *body, *inst, r@),
        seq_stack_delta(r@) == 1,
{
    let selected = match op {
        UnOp::Neg => CILOp::Neg,
        UnOp::Not => CILOp::Not,
    };
    let mut ops = handle_operand(a, body, inst);
    let ghost first = ops@;
    ops.push(selected);
    proof {
        assert(ops@.drop_last() =~= first);
        lemma_stack_delta_push(first, selected);
        assert(first.push(selected) =~= ops@);
    }
    ops
}

} // verus!
