use fortune_gpt::data::DbId;
use fortune_gpt::description::Description;
use fortune_gpt::manifest::ManifestError;
use fortune_gpt::manifest_escrow_id::ManifestEscrowId;
use fortune_gpt::manifest_id::ManifestId;
use fortune_gpt::title::Title;

#[test]
fn disallow_empty_description() {
    assert!(Description::new("").is_err());
}

#[test]
fn manifest_escrow_id_disallow_empty_title() {
    assert!(ManifestEscrowId::new("").is_err());
}

#[test]
fn title_disallow_empty_title() {
    assert!(Title::new("").is_err());
}

#[test]
fn blank_fields_are_rejected() {
    assert!(matches!(
        Title::new(" \t\r\n "),
        Err(ManifestError::EmptyTitle)
    ));
    assert!(matches!(
        Description::new("\u{2003}\u{00A0}"),
        Err(ManifestError::EmptyDescription)
    ));
    assert!(matches!(
        ManifestEscrowId::new("   "),
        Err(ManifestError::EmptyManifestEscrowId)
    ));
}

#[test]
fn valid_fields_keep_their_text() {
    let title = Title::new("  fortunes wanted  ").unwrap();
    assert_eq!(title.as_str(), "  fortunes wanted  ");
    assert_eq!(title.into_inner(), "  fortunes wanted  ");

    let description = Description::new("tell me a fortune").unwrap();
    assert_eq!(description.as_str(), "tell me a fortune");
    assert_eq!(description.into_inner(), "tell me a fortune");

    let escrow = ManifestEscrowId::new("escrow-17").unwrap();
    assert_eq!(escrow.as_str(), "escrow-17");
    assert_eq!(escrow.into_inner(), "escrow-17");
}

#[test]
fn manifest_id_wraps_db_id() {
    let id = DbId::nil();
    let mid = ManifestId::new(id);
    assert_eq!(mid.into_inner(), id);
    assert_eq!(ManifestId::default().into_inner(), DbId::nil());
}

#[test]
fn db_id_parse_and_print() {
    assert_eq!(
        DbId::nil().to_text(),
        "00000000-0000-0000-0000-000000000000"
    );
    let parsed = DbId::from_str("67e55044-10b1-426f-9247-bb680e5fe0c8").unwrap();
    assert_eq!(parsed.to_text(), "67e55044-10b1-426f-9247-bb680e5fe0c8");
    assert!(DbId::from_str("not-a-uuid").is_err());
    assert_eq!(
        DbId::from_str(&DbId::nil().to_text()).unwrap(),
        DbId::nil()
    );
    let fresh = DbId::new();
    assert_eq!(fresh.to_text().len(), 36);
}
