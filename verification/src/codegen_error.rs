//! The closed taxonomy of backend-fatal conditions, with a best-effort
//! reporting hook towards the host toolchain's diagnostic channel.

use vstd::prelude::*;
use std::io::Write;

verus! {

/// An error which occured while lowering the mid-level IR to target bytecode.
///
/// The taxonomy is closed: a type or value depended on a generic parameter
/// that the current instantiation does not bind (`UnresolvedGeneric`), or an
/// IR expression, cast pair or operator fell outside the covered lowering
/// table (`UnimplementedLowering`). Both are fatal for the function being
/// lowered; nothing is retried and no partial instruction sequence escapes.
#[derive(Copy, Clone, PartialEq, Eq, Debug, Structural)]
pub enum CodegenError {
    UnresolvedGeneric,
    UnimplementedLowering,
}

impl CodegenError {
    /// A stable, human-readable name for the condition.
    pub fn as_str(&self) -> (s: &'static str)
        ensures
            self is UnresolvedGeneric ==> s@ == "UnresolvedGeneric"@,
            self is UnimplementedLowering ==> s@ == "UnimplementedLowering"@,
    {
        match self {
            CodegenError::UnresolvedGeneric => "UnresolvedGeneric",
            CodegenError::UnimplementedLowering => "UnimplementedLowering",
        }
    }

    /// Relies on std::io::Stderr::write_fmt (through the writeln macro) to
    /// print one diagnostic line; the write is best-effort and its own
    /// failure is ignored, so the call always returns.
    #[verifier::external_body]
    fn report_error(&self)
    {
        let mut stderr = std::io::stderr();
        let _ = writeln!(&mut stderr, "CodegenError:{self:?}");
    }

    /// Reports the condition on the host's diagnostic channel and hands it
    /// back unchanged, so a caller can keep propagating the same condition
    /// after the report. The host-side "a diagnostic was already emitted"
    /// token belongs to the host toolchain, not to this core.
    pub fn report(self) -> (r: Self)
        ensures
            r == self,
    {
        self.report_error();
        self
    }
}

} // verus!
