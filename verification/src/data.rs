//! Data-layer model of a manifest, and the database identifier type.
//!
//! The data-layer structs carry the raw strings read from or written to the
//! persistent store; converting one into the domain model validates every
//! field.
use vstd::prelude::*;

use crate::description::Description;
use crate::manifest::Manifest as DomainManifest;
use crate::manifest::ManifestError;
use crate::manifest_escrow_id::ManifestEscrowId;
use crate::manifest_id::ManifestId;
use crate::title::Title;
use crate::text::spec_blank;

verus! {

/// The value that `uuid::Uuid::parse_str` accepts `s` as: `Some` of the
/// 128-bit identifier when `s` is a well-formed textual UUID, `None` when the
/// parser rejects it. The result depends on the characters alone.
pub uninterp spec fn uuid_parse(s: Seq<char>) -> Option<u128>;

/// The hyphenated textual form that `uuid` prints for the 128-bit identifier
/// `v`. The result depends on the value alone.
pub uninterp spec fn uuid_text(v: u128) -> Seq<char>;

/// Relies on `uuid::Uuid::parse_str` and `uuid::Uuid::as_u128`: parsing is a
/// function of the input characters alone, and the error path only carries
/// the parser's message.
#[verifier::external_body]
fn uuid_from_str(s: &str) -> (r: Result<u128, String>)
    ensures
        r matches Ok(v) ==> uuid_parse(s@) == Some(v),
        r matches Err(_) ==> uuid_parse(s@) is None,
{
    match uuid::Uuid::parse_str(s) {
        Ok(u) => Ok(u.as_u128()),
        Err(e) => Err(format!("{}", e)),
    }
}

/// Relies on `uuid::Uuid::from_u128` and the `Display` impl of `uuid::Uuid`:
/// the printed form is the 36-character hyphenated text of the value, a
/// function of the value alone.
#[verifier::external_body]
fn uuid_to_string(v: u128) -> (r: String)
    ensures
        r@ == uuid_text(v),
        r@.len() == 36,
{
    format!("{}", uuid::Uuid::from_u128(v))
}

/// Relies on `uuid::Uuid::new_v4` and `uuid::Uuid::as_u128`: the result is a
/// freshly drawn random identifier, of which nothing further is promised.
#[verifier::external_body]
fn uuid_random() -> u128 {
    uuid::Uuid::new_v4().as_u128()
}

/// The internal database identifier: a 128-bit UUID value.
#[derive(Clone, Copy, Debug, PartialEq, Eq, Structural)]
pub struct DbId(u128);

impl View for DbId {
    type V = u128;

    closed spec fn view(&self) -> u128 {
        self.0
    }
}

impl DbId {
    /// Draw a fresh random identifier.
    pub fn new() -> Self {
        DbId(uuid_random())
    }

    /// The all-zero identifier.
    pub fn nil() -> (r: Self)
        ensures
            r@ == 0,
    {
        DbId(0)
    }

    /// Parse an identifier from its textual UUID form.
    ///
    /// Returns `Ok` exactly when the text is a well-formed UUID; the error
    /// carries the parser's message.
    pub fn from_str(s: &str) -> (r: Result<Self, String>)
        ensures
            r matches Ok(id) ==> uuid_parse(s@) == Some(id@),
            r matches Err(_) ==> uuid_parse(s@) is None,
    {
        match uuid_from_str(s) {
            Ok(v) => Ok(DbId(v)),
            Err(e) => Err(e),
        }
    }

    /// The hyphenated textual form of the identifier.
    pub fn to_text(&self) -> (r: String)
        ensures
            r@ == uuid_text(self@),
            r@.len() == 36,
    {
        uuid_to_string(self.0)
    }
}

/// Manifest as fetched from or stored into the database: raw strings, not
/// yet validated.
#[derive(Clone, Debug)]
pub struct Manifest {
    pub manifest_id: String,
    pub manifest_escrow_id: String,
    pub title: String,
    pub description: String,
}

impl Manifest {
    /// Convert the raw database row into a validated domain
    /// [`Manifest`](crate::manifest::Manifest).
    ///
    /// The fields are checked in order — identifier, escrow identifier,
    /// title, description — and the first failure is returned: a malformed
    /// identifier gives `ManifestError::Id` with the parser's message, and a
    /// blank text field gives the matching `Empty...` error. On success every
    /// field keeps its text and the identifier is the parsed UUID value.
    pub fn try_into_domain(self) -> (r: Result<DomainManifest, ManifestError>)
        ensures
            match r {
                Ok(m) => {
                    &&& uuid_parse(self.manifest_id@) == Some(m.manifest_id@)
                    &&& m.manifest_escrow_id@ == self.manifest_escrow_id@
                    &&& !spec_blank(self.manifest_escrow_id@)
                    &&& m.title@ == self.title@
                    &&& !spec_blank(self.title@)
                    &&& m.description@ == self.description@
                    &&& !spec_blank(self.description@)
                },
                Err(e) => match e {
                    ManifestError::Id(_) => uuid_parse(self.manifest_id@) is None,
                    ManifestError::EmptyManifestEscrowId => uuid_parse(self.manifest_id@)
                        is Some && spec_blank(self.manifest_escrow_id@),
                    ManifestError::EmptyTitle => uuid_parse(self.manifest_id@) is Some
                        && !spec_blank(self.manifest_escrow_id@) && spec_blank(self.title@),
                    ManifestError::EmptyDescription => uuid_parse(self.manifest_id@) is Some
                        && !spec_blank(self.manifest_escrow_id@) && !spec_blank(self.title@)
                        && spec_blank(self.description@),
                    _ => false,
                },
            },
    {
        let manifest_id = match DbId::from_str(self.manifest_id.as_str()) {
            Ok(id) => ManifestId::new(id),
            Err(e) => {
                return Err(ManifestError::Id(e));
            },
        };
        let manifest_escrow_id = match ManifestEscrowId::new(self.manifest_escrow_id.as_str()) {
            Ok(v) => v,
            Err(e) => {
                return Err(e);
            },
        };
        let title = match Title::new(self.title.as_str()) {
            Ok(v) => v,
            Err(e) => {
                return Err(e);
            },
        };
        let description = match Description::new(self.description.as_str()) {
            Ok(v) => v,
            Err(e) => {
                return Err(e);
            },
        };
        Ok(DomainManifest { manifest_id, manifest_escrow_id, title, description })
    }
}

/// A manifest about to be inserted into the database: raw strings plus a
/// freshly drawn identifier.
#[derive(Clone, Debug)]
pub struct NewManifest {
    pub manifest_id: String,
    pub manifest_escrow_id: String,
    pub title: String,
    pub description: String,
}

impl NewManifest {
    /// Build the data-layer row for a validated service request: the text
    /// fields are taken over unchanged, and a fresh random identifier is
    /// drawn and written in its 36-character hyphenated form.
    pub fn from_ask(req: crate::ask::NewManifest) -> (r: Self)
        ensures
            r.manifest_id@.len() == 36,
            r.manifest_escrow_id@ == req.manifest_escrow_id@,
            r.title@ == req.title@,
            r.description@ == req.description@,
    {
        NewManifest {
            manifest_id: DbId::new().to_text(),
            manifest_escrow_id: req.manifest_escrow_id.into_inner(),
            title: req.title.into_inner(),
            description: req.description.into_inner(),
        }
    }
}

} // verus!
