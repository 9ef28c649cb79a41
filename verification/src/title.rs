//! The title field for a [`Manifest`](crate::manifest::Manifest).
use vstd::prelude::*;

use crate::manifest::ManifestError;
use crate::text::is_blank;
use crate::text::spec_blank;

verus! {

/// A manifest title; never blank.
#[derive(Clone, Debug)]
pub struct Title(String);

impl View for Title {
    type V = Seq<char>;

    closed spec fn view(&self) -> Seq<char> {
        self.0@
    }
}

impl Title {
    /// Create a new `Title` field.
    ///
    /// Returns `ManifestError::EmptyTitle` exactly when the provided title
    /// trims to the empty string; otherwise keeps the text unchanged.
    pub fn new(title: &str) -> (r: Result<Self, ManifestError>)
        ensures
            !spec_blank(title@) ==> (r matches Ok(t) && t@ == title@),
            spec_blank(title@) ==> (r matches Err(e) && e == ManifestError::EmptyTitle),
    {
        if !is_blank(title) {
            Ok(Title(title.to_owned()))
        } else {
            Err(ManifestError::EmptyTitle)
        }
    }

    /// Return the underlying [`String`].
    pub fn into_inner(self) -> (r: String)
        ensures
            r@ == self@,
    {
        self.0
    }

    /// Return a reference to the underlying [`str`].
    pub fn as_str(&self) -> (r: &str)
        ensures
            r@ == self@,
    {
        self.0.as_str()
    }
}

} // verus!
