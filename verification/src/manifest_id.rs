//! The internal database identifier field for a
//! [`Manifest`](crate::manifest::Manifest).
use vstd::prelude::*;

use crate::data::DbId;

verus! {

/// Wrapper around the internal database identifier of a manifest.
#[derive(Clone, Copy, Debug, PartialEq, Eq, Structural)]
pub struct ManifestId(DbId);

impl View for ManifestId {
    type V = u128;

    closed spec fn view(&self) -> u128 {
        self.0@
    }
}

impl ManifestId {
    /// Wrap a database identifier.
    pub fn new(id: DbId) -> (r: Self)
        ensures
            r@ == id@,
    {
        ManifestId(id)
    }

    /// Return the underlying [`DbId`].
    pub fn into_inner(self) -> (r: DbId)
        ensures
            r@ == self@,
    {
        self.0
    }
}

impl Default for ManifestId {
    /// The default identifier is the all-zero (nil) identifier.
    fn default() -> (r: Self)
        ensures
            r@ == 0,
    {
        ManifestId(DbId::nil())
    }
}

} // verus!
