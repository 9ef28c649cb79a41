use fortune_gpt::ask::GetJob;
use fortune_gpt::ask::NewJob;
use fortune_gpt::ask::UpdateJob;
use fortune_gpt::job_field::EscrowId;
use fortune_gpt::job_field::Expires;
use fortune_gpt::job_field::JobError;
use fortune_gpt::job_field::ManifestUrl;
use fortune_gpt::job_field::Password;
use fortune_gpt::job_field::ShortCode;

#[test]
fn get_job_from_raw_has_no_password() {
    let req = GetJob::from_raw("abc123");
    assert_eq!(req.shortcode.as_str(), "abc123");
    assert!(!req.password.has_password());
}

#[test]
fn get_job_from_parts_treats_empty_password_as_absent() {
    let req = GetJob::from_parts(ShortCode::new("c0de"), Some(String::new()));
    assert!(!req.password.has_password());
    let req = GetJob::from_parts(ShortCode::new("c0de"), None);
    assert!(!req.password.has_password());
    let req = GetJob::from_parts(ShortCode::new("c0de"), Some("pw".to_owned()));
    assert_eq!(req.password.into_inner(), Some("pw".to_owned()));
}

#[test]
fn new_job_fills_absent_options_with_defaults() {
    let req = NewJob::from_parts("escrow-3", 1_700_000_000, None, None, None).unwrap();
    assert_eq!(req.escrow_id.into_inner(), "escrow-3");
    assert_eq!(req.posted.into_inner(), 1_700_000_000);
    assert!(!req.password.has_password());
    assert_eq!(req.expires.into_inner(), None);
    assert_eq!(req.manifest_url.into_inner(), None);
}

#[test]
fn new_job_rejects_blank_escrow_id() {
    let req = NewJob::from_parts("  ", 0, None, None, None);
    assert!(matches!(req, Err(JobError::EmptyEscrowId)));
}

#[test]
fn update_job_keeps_current_values_when_options_are_absent() {
    let req = UpdateJob::from_parts(
        ShortCode::new("c0de"),
        "escrow-5",
        Password::new("pw".to_owned()),
        None,
        None,
        Expires::new(Some(123)),
        ManifestUrl::new("https://example.test/manifest".to_owned()),
    )
    .unwrap();
    assert_eq!(req.shortcode.as_str(), "c0de");
    assert_eq!(req.escrow_id.into_inner(), "escrow-5");
    assert_eq!(req.expires.into_inner(), Some(123));
    assert_eq!(
        req.manifest_url.into_inner(),
        Some("https://example.test/manifest".to_owned())
    );
    assert_eq!(req.password.into_inner(), Some("pw".to_owned()));
}

#[test]
fn update_job_prefers_explicit_values() {
    let req = UpdateJob::from_parts(
        ShortCode::new("c0de"),
        "escrow-5",
        Password::default(),
        Some(Expires::new(Some(999))),
        Some(ManifestUrl::new("https://example.test/new".to_owned())),
        Expires::new(Some(123)),
        ManifestUrl::new("https://example.test/old".to_owned()),
    )
    .unwrap();
    assert_eq!(req.expires.into_inner(), Some(999));
    assert_eq!(
        req.manifest_url.into_inner(),
        Some("https://example.test/new".to_owned())
    );
}

#[test]
fn escrow_id_validation_matches_the_blank_rule() {
    assert!(EscrowId::new("").is_err());
    assert!(EscrowId::new(" \t ").is_err());
    assert!(EscrowId::new("x").is_ok());
}
