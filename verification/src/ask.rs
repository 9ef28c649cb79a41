//! Data structures to make a service request, and the rules that build them
//! from raw client input.
use vstd::prelude::*;

use crate::description::Description;
use crate::job_field::EscrowId;
use crate::job_field::Expires;
use crate::job_field::JobError;
use crate::job_field::ManifestUrl;
use crate::job_field::Password;
use crate::job_field::Posted;
use crate::job_field::ShortCode;
use crate::manifest_escrow_id::ManifestEscrowId;
use crate::manifest_id::ManifestId;
use crate::text::spec_blank;
use crate::title::Title;

verus! {

/// Data required to add a new job record.
#[derive(Clone, Debug)]
pub struct NewJob {
    pub escrow_id: EscrowId,
    pub manifest_url: ManifestUrl,
    pub posted: Posted,
    pub expires: Expires,
    pub password: Password,
}

impl NewJob {
    /// Build a new-job request from raw client input.
    ///
    /// The escrow identifier is validated (blank input is rejected with
    /// `JobError::EmptyEscrowId`); an absent URL, expiration or password
    /// falls back to its default (absent) value.
    pub fn from_parts(
        job: &str,
        posted: u64,
        password: Option<Password>,
        expires: Option<Expires>,
        manifest_url: Option<ManifestUrl>,
    ) -> (r: Result<Self, JobError>)
        ensures
            spec_blank(job@) ==> (r matches Err(e) && e == JobError::EmptyEscrowId),
            !spec_blank(job@) ==> (r matches Ok(req) && {
                &&& req.escrow_id@ == job@
                &&& req.posted@ == posted
                &&& req.password@ == (match password {
                    Some(p) => p@,
                    None => None,
                })
                &&& req.expires@ == (match expires {
                    Some(e) => e@,
                    None => None,
                })
                &&& req.manifest_url@ == (match manifest_url {
                    Some(u) => u@,
                    None => None,
                })
            }),
    {
        let escrow_id = match EscrowId::new(job) {
            Ok(v) => v,
            Err(e) => {
                return Err(e);
            },
        };
        Ok(
            NewJob {
                escrow_id,
                posted: Posted::new(posted),
                password: match password {
                    Some(p) => p,
                    None => Password::default(),
                },
                expires: match expires {
                    Some(e) => e,
                    None => Expires::default(),
                },
                manifest_url: match manifest_url {
                    Some(u) => u,
                    None => ManifestUrl::default(),
                },
            },
        )
    }
}

/// Data required to update an existing job record.
#[derive(Clone, Debug)]
pub struct UpdateJob {
    pub escrow_id: EscrowId,
    pub manifest_url: ManifestUrl,
    pub expires: Expires,
    pub password: Password,
    pub shortcode: ShortCode,
}

impl UpdateJob {
    /// Build an update request from raw client input and the record's
    /// current field values.
    ///
    /// The escrow identifier is validated (blank input is rejected with
    /// `JobError::EmptyEscrowId`); an expiration or URL the client did not
    /// give keeps the record's current value, so an update never silently
    /// clears those fields.
    pub fn from_parts(
        shortcode: ShortCode,
        job: &str,
        password: Password,
        expires: Option<Expires>,
        manifest_url: Option<ManifestUrl>,
        current_expires: Expires,
        current_manifest_url: ManifestUrl,
    ) -> (r: Result<Self, JobError>)
        ensures
            spec_blank(job@) ==> (r matches Err(e) && e == JobError::EmptyEscrowId),
            !spec_blank(job@) ==> (r matches Ok(req) && {
                &&& req.escrow_id@ == job@
                &&& req.shortcode@ == shortcode@
                &&& req.password@ == password@
                &&& req.expires@ == (match expires {
                    Some(e) => e@,
                    None => current_expires@,
                })
                &&& req.manifest_url@ == (match manifest_url {
                    Some(u) => u@,
                    None => current_manifest_url@,
                })
            }),
    {
        let escrow_id = match EscrowId::new(job) {
            Ok(v) => v,
            Err(e) => {
                return Err(e);
            },
        };
        Ok(
            UpdateJob {
                escrow_id,
                expires: match expires {
                    Some(e) => e,
                    None => current_expires,
                },
                manifest_url: match manifest_url {
                    Some(u) => u,
                    None => current_manifest_url,
                },
                password,
                shortcode,
            },
        )
    }
}

/// Data required to fetch a job record.
#[derive(Clone, Debug)]
pub struct GetJob {
    pub shortcode: ShortCode,
    pub password: Password,
}

impl GetJob {
    /// Convert a raw short code into a fetch request with no password.
    pub fn from_raw(shortcode: &str) -> (r: Self)
        ensures
            r.shortcode@ == shortcode@,
            r.password@ is None,
    {
        GetJob { shortcode: ShortCode::new(shortcode), password: Password::default() }
    }

    /// Build a fetch request from raw client input: an absent or empty
    /// password becomes the absent password.
    pub fn from_parts(shortcode: ShortCode, password: Option<String>) -> (r: Self)
        ensures
            r.shortcode@ == shortcode@,
            r.password@ == (match password {
                Some(p) => if p@.len() == 0 {
                    None::<Seq<char>>
                } else {
                    Some(p@)
                },
                None => None::<Seq<char>>,
            }),
    {
        let password = match password {
            Some(p) => Password::new(p),
            None => Password::default(),
        };
        GetJob { shortcode, password }
    }
}

/// Data required to add a new manifest.
#[derive(Clone, Debug)]
pub struct NewManifest {
    pub manifest_id: ManifestId,
    pub manifest_escrow_id: ManifestEscrowId,
    pub title: Title,
    pub description: Description,
}

/// Data required to fetch a manifest.
#[derive(Clone, Debug)]
pub struct GetManifest {
    pub manifest_escrow_id: ManifestEscrowId,
}

} // verus!
