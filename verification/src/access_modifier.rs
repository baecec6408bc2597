//! Projection of the source language's visibility lattice onto the target's
//! two-valued member access model.

use vstd::prelude::*;

verus! {

/// A source-level visibility, as handed over by the host compiler.
///
/// The source language has a richer lattice than the target: besides fully
/// public items there are restricted ones, scoped to some enclosing module
/// (the scope payload `T` is opaque to this backend).
#[derive(Copy, Clone, Debug)]
pub enum Visibility<T> {
    Public,
    Restricted(T),
}

/// Specifies if an item is public, or not.
#[derive(Copy, Clone, PartialEq, Eq, Hash, Debug, Structural)]
pub enum AccessModifer {
    Private,
    Public,
}

/// What `from_visibility` returns: only a fully public source visibility maps
/// to a public member; every restricted form collapses to private.
pub open spec fn access_of_visibility<T>(visibility: Visibility<T>) -> AccessModifer {
    match visibility {
        Visibility::Public => AccessModifer::Public,
        Visibility::Restricted(_) => AccessModifer::Private,
    }
}

impl AccessModifer {
    /// Maps a source visibility onto the target's binary access model.
    /// Total: defined for every source visibility value, and intentionally
    /// lossy (module- or crate-scoped visibility all becomes private).
    pub fn from_visibility<T>(visibility: Visibility<T>) -> (r: Self)
        ensures
            r == access_of_visibility(visibility),
    {
        if let Visibility::Public = visibility {
            Self::Public
        } else {
            Self::Private
        }
    }
}

/// The access-modifier mapping is total and two-valued: every source
/// visibility is mapped, and the image is exactly public or private.
pub proof fn lemma_from_visibility_total<T>(visibility: Visibility<T>)
    ensures
        access_of_visibility(visibility) == AccessModifer::Public || access_of_visibility(
            visibility,
        ) == AccessModifer::Private,
        access_of_visibility(visibility) == AccessModifer::Public <==> visibility is Public,
{
}

} // verus!
