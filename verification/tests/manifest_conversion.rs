use fortune_gpt::ask;
use fortune_gpt::data;
use fortune_gpt::description::Description;
use fortune_gpt::manifest::ManifestError;
use fortune_gpt::manifest_escrow_id::ManifestEscrowId;
use fortune_gpt::manifest_id::ManifestId;
use fortune_gpt::title::Title;

fn raw(id: &str, escrow: &str, title: &str, description: &str) -> data::Manifest {
    data::Manifest {
        manifest_id: id.to_owned(),
        manifest_escrow_id: escrow.to_owned(),
        title: title.to_owned(),
        description: description.to_owned(),
    }
}

#[test]
fn raw_manifest_converts_when_all_fields_are_valid() {
    let m = raw(
        "67e55044-10b1-426f-9247-bb680e5fe0c8",
        "escrow-9",
        "a title",
        "a description",
    )
    .try_into_domain()
    .unwrap();
    assert_eq!(m.manifest_escrow_id.as_str(), "escrow-9");
    assert_eq!(m.title.as_str(), "a title");
    assert_eq!(m.description.as_str(), "a description");
    assert_eq!(
        m.manifest_id.into_inner().to_text(),
        "67e55044-10b1-426f-9247-bb680e5fe0c8"
    );
}

#[test]
fn raw_manifest_reports_first_invalid_field() {
    let bad_id = raw("nope", "e", "t", "d").try_into_domain();
    assert!(matches!(bad_id, Err(ManifestError::Id(_))));

    let bad_escrow = raw("67e55044-10b1-426f-9247-bb680e5fe0c8", " ", "t", "d").try_into_domain();
    assert!(matches!(
        bad_escrow,
        Err(ManifestError::EmptyManifestEscrowId)
    ));

    let bad_title = raw("67e55044-10b1-426f-9247-bb680e5fe0c8", "e", "", "d").try_into_domain();
    assert!(matches!(bad_title, Err(ManifestError::EmptyTitle)));

    let bad_description =
        raw("67e55044-10b1-426f-9247-bb680e5fe0c8", "e", "t", "\n").try_into_domain();
    assert!(matches!(
        bad_description,
        Err(ManifestError::EmptyDescription)
    ));
}

#[test]
fn new_manifest_draws_a_fresh_id_and_keeps_the_fields() {
    let req = ask::NewManifest {
        manifest_id: ManifestId::default(),
        manifest_escrow_id: ManifestEscrowId::new("escrow-1").unwrap(),
        title: Title::new("title").unwrap(),
        description: Description::new("description").unwrap(),
    };
    let row = data::NewManifest::from_ask(req);
    assert_eq!(row.manifest_id.len(), 36);
    assert_eq!(row.manifest_escrow_id, "escrow-1");
    assert_eq!(row.title, "title");
    assert_eq!(row.description, "description");
}
