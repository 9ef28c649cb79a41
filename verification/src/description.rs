//! The description field for a [`Manifest`](crate::manifest::Manifest).
use vstd::prelude::*;

use crate::manifest::ManifestError;
use crate::text::is_blank;
use crate::text::spec_blank;

verus! {

/// A manifest description; never blank.
#[derive(Clone, Debug)]
pub struct Description(String);

impl View for Description {
    type V = Seq<char>;

    closed spec fn view(&self) -> Seq<char> {
        self.0@
    }
}

impl Description {
    /// Create a new `Description` field.
    ///
    /// Returns `ManifestError::EmptyDescription` exactly when the provided
    /// description trims to the empty string; otherwise keeps the text
    /// unchanged.
    pub fn new(description: &str) -> (r: Result<Self, ManifestError>)
        ensures
            !spec_blank(description@) ==> (r matches Ok(d) && d@ == description@),
            spec_blank(description@) ==> (r matches Err(e) && e == ManifestError::EmptyDescription),
    {
        if !is_blank(description) {
            Ok(Description(description.to_owned()))
        } else {
            Err(ManifestError::EmptyDescription)
        }
    }

    /// Return the underlying [`String`].
    pub fn into_inner(self) -> (r: String)
        ensures
            r@ == self@,
    {
        self.0
    }

    /// Return a reference to the underlying [`str`].
    pub fn as_str(&self) -> (r: &str)
        ensures
            r@ == self@,
    {
        self.0.as_str()
    }
}

} // verus!
