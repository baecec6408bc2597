//! A target-machine method definition: name, signature, local-variable
//! types and the literal instruction sequence of its body.

use vstd::prelude::*;
use crate::cil_op::CILOp;
use crate::types::{FnSig, Type};

verus! {

/// One method to be registered into the output assembly: a pure value
/// consumed by the assembly-builder collaborator.
#[derive(Debug)]
pub struct CLRMethod {
    pub name: String,
    pub signature: FnSig,
    pub locals: Vec<Type>,
    pub ops: Vec<CILOp>,
}

impl CLRMethod {
    /// Builds a method definition directly from a literal instruction
    /// sequence, a local-variable type list, a name and a signature.
    pub fn from_raw(ops: Vec<CILOp>, locals: Vec<Type>, name: String, signature: FnSig) -> (r:
        Self)
        ensures
            r.ops == ops,
            r.locals == locals,
            r.name == name,
            r.signature == signature,
    {
        CLRMethod { name, signature, locals, ops }
    }
}

} // verus!
