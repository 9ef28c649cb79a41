//! Validated field newtypes for job records, as used by the service request
//! types in [`crate::ask`].
use vstd::prelude::*;

use crate::text::is_blank;
use crate::text::spec_blank;

verus! {

/// The possible errors that can occur when building a job field.
#[derive(Clone, Debug)]
pub enum JobError {
    /// The escrow identifier trims to the empty string.
    EmptyEscrowId,
}

/// The short public code addressing one job record.
#[derive(Clone, Debug)]
pub struct ShortCode(String);

impl View for ShortCode {
    type V = Seq<char>;

    closed spec fn view(&self) -> Seq<char> {
        self.0@
    }
}

impl ShortCode {
    /// Wrap a raw short code; any text is accepted.
    pub fn new(raw: &str) -> (r: Self)
        ensures
            r@ == raw@,
    {
        ShortCode(raw.to_owned())
    }

    /// Return the underlying [`String`].
    pub fn into_inner(self) -> (r: String)
        ensures
            r@ == self@,
    {
        self.0
    }

    /// Return a reference to the underlying [`str`].
    pub fn as_str(&self) -> (r: &str)
        ensures
            r@ == self@,
    {
        self.0.as_str()
    }
}

/// An optional password protecting a job record; the empty string means no
/// password.
#[derive(Clone, Debug)]
pub struct Password(Option<String>);

impl View for Password {
    type V = Option<Seq<char>>;

    closed spec fn view(&self) -> Option<Seq<char>> {
        match self.0 {
            Some(s) => Some(s@),
            None => None,
        }
    }
}

impl Password {
    /// Create a password field: an empty string becomes the absent password.
    pub fn new(raw: String) -> (r: Self)
        ensures
            raw@.len() == 0 ==> r@ is None,
            raw@.len() > 0 ==> r@ == Some(raw@),
    {
        if raw.as_str().is_empty() {
            Password(None)
        } else {
            Password(Some(raw))
        }
    }

    /// Return the underlying optional [`String`].
    pub fn into_inner(self) -> (r: Option<String>)
        ensures
            r matches Some(s) ==> self@ == Some(s@),
            r is None ==> self@ is None,
    {
        self.0
    }

    /// Whether a password is present.
    pub fn has_password(&self) -> (b: bool)
        ensures
            b == (self@ is Some),
    {
        self.0.is_some()
    }
}

impl Default for Password {
    /// The default password is absent.
    fn default() -> (r: Self)
        ensures
            r@ is None,
    {
        Password(None)
    }
}

/// The escrow identifier of a job record; never blank.
#[derive(Clone, Debug)]
pub struct EscrowId(String);

impl View for EscrowId {
    type V = Seq<char>;

    closed spec fn view(&self) -> Seq<char> {
        self.0@
    }
}

impl EscrowId {
    /// Create an escrow identifier field.
    ///
    /// Returns `JobError::EmptyEscrowId` exactly when the provided
    /// identifier trims to the empty string.
    pub fn new(raw: &str) -> (r: Result<Self, JobError>)
        ensures
            !spec_blank(raw@) ==> (r matches Ok(v) && v@ == raw@),
            spec_blank(raw@) ==> (r matches Err(e) && e == JobError::EmptyEscrowId),
    {
        if !is_blank(raw) {
            Ok(EscrowId(raw.to_owned()))
        } else {
            Err(JobError::EmptyEscrowId)
        }
    }

    /// Return the underlying [`String`].
    pub fn into_inner(self) -> (r: String)
        ensures
            r@ == self@,
    {
        self.0
    }
}

/// The URL the job's manifest is fetched from; absent when none was given.
#[derive(Clone, Debug)]
pub struct ManifestUrl(Option<String>);

impl View for ManifestUrl {
    type V = Option<Seq<char>>;

    closed spec fn view(&self) -> Option<Seq<char>> {
        match self.0 {
            Some(s) => Some(s@),
            None => None,
        }
    }
}

impl ManifestUrl {
    /// Wrap a manifest URL.
    pub fn new(raw: String) -> (r: Self)
        ensures
            r@ == Some(raw@),
    {
        ManifestUrl(Some(raw))
    }

    /// Return the underlying optional [`String`].
    pub fn into_inner(self) -> (r: Option<String>)
        ensures
            r matches Some(s) ==> self@ == Some(s@),
            r is None ==> self@ is None,
    {
        self.0
    }
}

impl Default for ManifestUrl {
    /// The default manifest URL is absent.
    fn default() -> (r: Self)
        ensures
            r@ is None,
    {
        ManifestUrl(None)
    }
}

/// The posting time of a job record, in seconds since the epoch.
#[derive(Clone, Copy, Debug, PartialEq, Eq, Structural)]
pub struct Posted(u64);

impl View for Posted {
    type V = u64;

    closed spec fn view(&self) -> u64 {
        self.0
    }
}

impl Posted {
    /// Wrap a posting timestamp.
    pub fn new(t: u64) -> (r: Self)
        ensures
            r@ == t,
    {
        Posted(t)
    }

    /// Return the underlying timestamp.
    pub fn into_inner(self) -> (r: u64)
        ensures
            r == self@,
    {
        self.0
    }
}

/// The optional expiration time of a job record, in seconds since the epoch.
/// A record with no expiration never expires.
#[derive(Clone, Copy, Debug, PartialEq, Eq, Structural)]
pub struct Expires(Option<i64>);

impl View for Expires {
    type V = Option<i64>;

    closed spec fn view(&self) -> Option<i64> {
        self.0
    }
}

impl Expires {
    /// Wrap an optional expiration timestamp.
    pub fn new(t: Option<i64>) -> (r: Self)
        ensures
            r@ == t,
    {
        Expires(t)
    }

    /// Return the underlying optional timestamp.
    pub fn into_inner(self) -> (r: Option<i64>)
        ensures
            r == self@,
    {
        self.0
    }
}

impl Default for Expires {
    /// The default expiration is absent: the record never expires.
    fn default() -> (r: Self)
        ensures
            r@ is None,
    {
        Expires(None)
    }
}

} // verus!
