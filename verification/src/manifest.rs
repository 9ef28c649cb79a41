//! Domain model of a manifest: every field is a validated newtype, so a
//! value of [`Manifest`] is well-formed by construction.
use vstd::prelude::*;

use crate::description::Description;
use crate::manifest_escrow_id::ManifestEscrowId;
use crate::manifest_id::ManifestId;
use crate::title::Title;

verus! {

/// The possible errors that can occur when building a [`Manifest`].
#[derive(Clone, Debug)]
pub enum ManifestError {
    /// The title trims to the empty string.
    EmptyTitle,
    /// The description trims to the empty string.
    EmptyDescription,
    /// The escrow identifier trims to the empty string.
    EmptyManifestEscrowId,
    /// The description is otherwise invalid.
    InvalidDescription(String),
    /// The required-responses field is invalid.
    InvalidResponseRequired(String),
    /// The fund amount is invalid.
    InvalidFundAmount,
    /// The date is invalid: bad day of the month, too far in the past, etc.
    InvalidDate(String),
    /// A date failed to parse; the payload is the parser's message.
    DateParse(String),
    /// A database identifier failed to parse; the payload is the parser's
    /// message.
    Id(String),
}

impl ManifestError {
    /// A short human-readable description of the error.
    pub fn message(&self) -> String {
        match self {
            ManifestError::EmptyTitle => "Empty title".to_owned(),
            ManifestError::EmptyDescription => "Empty description".to_owned(),
            ManifestError::EmptyManifestEscrowId => "Empty escrow ID".to_owned(),
            ManifestError::InvalidDescription(s) => s.clone(),
            ManifestError::InvalidResponseRequired(s) => s.clone(),
            ManifestError::InvalidFundAmount => "empty escrow_id".to_owned(),
            ManifestError::InvalidDate(s) => s.clone(),
            ManifestError::DateParse(s) => s.clone(),
            ManifestError::Id(s) => s.clone(),
        }
    }
}

/// A manifest whose fields have all been validated.
///
/// Each field uses a newtype that encapsulates the requirements for that
/// particular field; if one of the fields cannot be created, a `Manifest`
/// cannot be created either, so a `Manifest` is always valid wherever it is
/// used.
#[derive(Clone, Debug)]
pub struct Manifest {
    /// The internal database identifier of the manifest.
    pub manifest_id: ManifestId,
    pub manifest_escrow_id: ManifestEscrowId,
    pub title: Title,
    pub description: Description,
}

} // verus!
