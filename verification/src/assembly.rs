//! The interface to the assembly-builder collaborator: the backend hands it
//! method and type definitions, and it owns packaging and emission.

use vstd::prelude::*;
use crate::clr_method::CLRMethod;
use crate::types::Type;

verus! {

/// Receives the method and type definitions the backend produces. The
/// backend only ever appends definitions; what the exporter has received so
/// far is visible to specifications through `methods` and `types`.
pub trait AssemblyExporter: Sized {
    /// The method definitions received so far, in registration order.
    spec fn methods(&self) -> Seq<CLRMethod>;

    /// The type definitions received so far, in registration order.
    spec fn types(&self) -> Seq<Type>;

    /// Registers one method definition.
    fn add_method(&mut self, method: CLRMethod)
        ensures
            final(self).methods() == old(self).methods().push(method),
            final(self).types() == old(self).types(),
    ;

    /// Registers one type definition.
    fn add_type(&mut self, tpe: Type)
        ensures
            final(self).types() == old(self).types().push(tpe),
            final(self).methods() == old(self).methods(),
    ;
}

/// A plain in-memory exporter: collects every registered definition in
/// order, for a packaging stage (or a test) to read back.
pub struct AssemblyBuilder {
    pub method_defs: Vec<CLRMethod>,
    pub type_defs: Vec<Type>,
}

impl AssemblyBuilder {
    /// An exporter that has received nothing yet.
    pub fn new() -> (r: Self)
        ensures
            r.methods() == Seq::<CLRMethod>::empty(),
            r.types() == Seq::<Type>::empty(),
    {
        AssemblyBuilder { method_defs: Vec::new(), type_defs: Vec::new() }
    }
}

impl AssemblyExporter for AssemblyBuilder {
    open spec fn methods(&self) -> Seq<CLRMethod> {
        self.method_defs@
    }

    open spec fn types(&self) -> Seq<Type> {
        self.type_defs@
    }

    fn add_method(&mut self, method: CLRMethod) {
        self.method_defs.push(method);
    }

    fn add_type(&mut self, tpe: Type) {
        self.type_defs.push(tpe);
    }
}

} // verus!
