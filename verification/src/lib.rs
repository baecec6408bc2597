//! Code-generation backend core for a stack-based managed target machine.
//!
//! The crate lowers a typed mid-level IR (functions made of typed
//! value-producing expressions, memory locations and operands) into ordered
//! sequences of target bytecode instructions: it translates source types into
//! the target type language, selects numeric-conversion instructions, resolves
//! call sites, and dispatches on every supported IR expression kind.

pub mod access_modifier;
pub mod aggregate;
pub mod assembly;
pub mod binop;
pub mod casts;
pub mod cil_op;
pub mod clr_method;
pub mod codegen_error;
pub mod ir;
pub mod libc;
pub mod operand;
pub mod place;
pub mod rvalue;
pub mod types;
pub mod unop;

use vstd::prelude::*;

verus! {

} // verus!
