//! Operand materialization: produce an operand's value on the evaluation
//! stack, whether it comes from a memory location or from a constant.

use vstd::prelude::*;
use crate::cil_op::{CILOp, lemma_stack_delta_one, seq_stack_delta};
use crate::ir::{Body, Constant, Operand, operand_wf};
use crate::place::{place_get, value_ops};
use crate::types::{Instantiation, IntTy, SourceType, UintTy, instantiation_wf, resolves};

verus! {

/// A constant of one of the 64-bit-wide types loads through the 64-bit
/// constant-load instruction; every other scalar constant through the
/// 32-bit one.
pub open spec fn const_is_wide(ty: SourceType) -> bool {
    ty == SourceType::Int(IntTy::I64) || ty == SourceType::Int(IntTy::Isize) || ty
        == SourceType::Uint(UintTy::U64) || ty == SourceType::Uint(UintTy::Usize)
}

/// The single instruction materializing a scalar constant.
pub open spec fn const_load_op(c: Constant) -> CILOp {
    if const_is_wide(c.ty) {
        CILOp::LDConstI64(c.value)
    } else {
        CILOp::LDConstI32(c.value as i32)
    }
}

/// `ops` realizes the value producer for the operand: a read of a memory
/// location produces that location's value, a constant produces itself.
pub open spec fn operand_ops(op: Operand, body: Body, inst: Instantiation, ops: Seq<CILOp>) -> bool {
    match op {
        Operand::Copy(p) => value_ops(p, body, inst, ops),
        Operand::Move(p) => value_ops(p, body, inst, ops),
        Operand::Constant(c) => ops == seq![const_load_op(c)],
    }
}

/// The requirements operand lowering places on its inputs: a well-formed
/// operand whose place (if any) starts from a slot that resolves under the
/// instantiation.
pub open spec fn operand_input_ok(op: Operand, body: Body, inst: Instantiation) -> bool {
    operand_wf(op, body) && match op {
        Operand::Copy(p) => resolves(crate::ir::place_base_ty(p, body), inst),
        Operand::Move(p) => resolves(crate::ir::place_base_ty(p, body), inst),
        Operand::Constant(_) => true,
    }
}

/// The source type of an operand, looked up in the body for a place read
/// and carried on the constant otherwise.
pub fn operand_ty<'a>(op: &'a Operand, body: &'a Body) -> (r: &'a SourceType)
    requires
        operand_wf(*op, *body),
    ensures
        *r == crate::ir::operand_ty_spec(*op, *body),
{
    match op {
        Operand::Copy(p) => crate::place::place_ty(p, body),
        Operand::Move(p) => crate::place::place_ty(p, body),
        Operand::Constant(c) => &c.ty,
    }
}

/// Produces the instructions pushing the operand's value; the net stack
/// effect is exactly one pushed value.
pub fn handle_operand(op: &Operand, body: &Body, inst: &Instantiation) -> (r: Vec<CILOp>)
    requires
        operand_input_ok(*op, *body, *inst),
        instantiation_wf(*inst),
    ensures
        operand_ops(*op, *body, *inst, r@),
        seq_stack_delta(r@) == 1,
{
    match op {
        Operand::Copy(p) => place_get(p, body, inst),
        Operand::Move(p) => place_get(p, body, inst),
        Operand::Constant(c) => {
            let wide = match &c.ty {
                SourceType::Int(IntTy::I64) => true,
                SourceType::Int(IntTy::Isize) => true,
                SourceType::Uint(UintTy::U64) => true,
                SourceType::Uint(UintTy::Usize) => true,
                _ => false,
            };
            let opcode = if wide {
                CILOp::LDConstI64(c.value)
            } else {
                CILOp::LDConstI32(c.value as i32)
            };
            let mut ops: Vec<CILOp> = Vec::new();
            proof {
                lemma_stack_delta_one(const_load_op(*c));
            }
            ops.push(opcode);
            ops
        },
    }
}

} // verus!
