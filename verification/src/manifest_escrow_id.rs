//! The escrow identifier field for a [`Manifest`](crate::manifest::Manifest).
use vstd::prelude::*;

use crate::manifest::ManifestError;
use crate::text::is_blank;
use crate::text::spec_blank;

verus! {

/// A manifest escrow identifier; never blank.
#[derive(Clone, Debug)]
pub struct ManifestEscrowId(String);

impl View for ManifestEscrowId {
    type V = Seq<char>;

    closed spec fn view(&self) -> Seq<char> {
        self.0@
    }
}

impl ManifestEscrowId {
    /// Create a new `ManifestEscrowId` field.
    ///
    /// Returns `ManifestError::EmptyManifestEscrowId` exactly when the
    /// provided identifier trims to the empty string; otherwise keeps the
    /// text unchanged.
    pub fn new(manifest_escrow_id: &str) -> (r: Result<Self, ManifestError>)
        ensures
            !spec_blank(manifest_escrow_id@) ==> (r matches Ok(v) && v@
                == manifest_escrow_id@),
            spec_blank(manifest_escrow_id@) ==> (r matches Err(e) && e == ManifestError::EmptyManifestEscrowId),
    {
        if !is_blank(manifest_escrow_id) {
            Ok(ManifestEscrowId(manifest_escrow_id.to_owned()))
        } else {
            Err(ManifestError::EmptyManifestEscrowId)
        }
    }

    /// Return the underlying [`String`].
    pub fn into_inner(self) -> (r: String)
        ensures
            r@ == self@,
    {
        self.0
    }

    /// Return a reference to the underlying [`str`].
    pub fn as_str(&self) -> (r: &str)
        ensures
            r@ == self@,
    {
        self.0.as_str()
    }
}

} // verus!
