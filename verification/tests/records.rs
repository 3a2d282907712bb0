use openlibrary_client::ambiguous::AmbiguousField;
use openlibrary_client::ambiguous::DecodeError;
use openlibrary_client::ambiguous::WireKind;
use openlibrary_client::author::Author;
use openlibrary_client::edition::Edition;
use openlibrary_client::work::Work;

const EDITION_BODY: &str = r#"{
    "key": "/books/OL7353617M",
    "title": "Anarchism and Other Essays",
    "subtitle": "with a new introduction",
    "type": {"key": "/type/edition"},
    "authors": [{"key": "/authors/OL29497A"}],
    "works": [{"key": "/works/OL17859861W"}],
    "identifiers": {"librarything": ["123"], "goodreads": ["456"]},
    "isbn_10": ["0486224848"],
    "isbn_13": ["9781849352826"],
    "covers": [8221291, -1],
    "languages": [{"key": "/languages/eng"}],
    "number_of_pages": 271,
    "publishers": ["Dover Publications"],
    "publish_date": "1969",
    "subjects": ["Anarchism"],
    "notes": "Reprint of the 1917 edition.",
    "revision": 9,
    "latest_revision": 9,
    "created": {"type": "/type/datetime", "value": "2008-04-29T13:35:46.876380"},
    "last_modified": {"type": "/type/datetime", "value": "2021-09-15T19:18:12.233418"}
}"#;

#[test]
fn edition_materializes_from_json() {
    let e = Edition::from_body(EDITION_BODY).unwrap();
    assert_eq!(e.key, "/books/OL7353617M");
    assert_eq!(e.title, "Anarchism and Other Essays");
    assert_eq!(e.subtitle.as_deref(), Some("with a new introduction"));
    assert_eq!(e.type_field.key, "/type/edition");
    assert_eq!(e.works.len(), 1);
    assert_eq!(e.works[0].key, "/works/OL17859861W");
    assert_eq!(e.isbn10, Some(vec!["0486224848".to_string()]));
    assert_eq!(e.isbn13, Some(vec!["9781849352826".to_string()]));
    assert_eq!(e.covers, Some(vec![8221291, -1]));
    assert_eq!(e.number_of_pages, Some(271));
    assert_eq!(e.revision, 9);
    assert_eq!(e.latest_revision, Some(9));
    assert_eq!(e.created.value, "2008-04-29T13:35:46.876380");
    assert_eq!(e.languages.as_ref().unwrap()[0].key, "/languages/eng");
    // a field absent from the wire stays empty, never an error
    assert_eq!(e.ocaid, None);
    assert_eq!(e.lccn, None);
}

#[test]
fn edition_notes_normalize_from_bare_text() {
    let e = Edition::from_body(EDITION_BODY).unwrap();
    let notes = e.notes.unwrap();
    assert_eq!(notes.type_field, "text");
    assert_eq!(notes.value, "Reprint of the 1917 edition.");
}

#[test]
fn edition_getters_read_the_lists() {
    let e = Edition::from_body(EDITION_BODY).unwrap();
    assert_eq!(e.get_works_ids(), vec!["/works/OL17859861W".to_string()]);
    let authors = e.get_author();
    assert_eq!(authors.len(), 1);
    assert_eq!(authors[0].key, "/authors/OL29497A");
}

#[test]
fn edition_without_key_or_works_is_malformed() {
    let r = Edition::from_body(r#"{"title": "T"}"#);
    assert!(matches!(r, Err(DecodeError::MalformedRecord)));
    let r = Edition::from_body(
        r#"{"key": "/books/OL1M", "title": "T", "type": {"key": "/type/edition"},
            "revision": 1,
            "created": {"type": "d", "value": "v"},
            "last_modified": {"type": "d", "value": "v"}}"#,
    );
    assert!(matches!(r, Err(DecodeError::MalformedRecord)));
}

#[test]
fn edition_with_empty_key_is_malformed() {
    let r = Edition::from_body(
        r#"{"key": "", "title": "T", "type": {"key": "/type/edition"}, "works": [],
            "revision": 1,
            "created": {"type": "d", "value": "v"},
            "last_modified": {"type": "d", "value": "v"}}"#,
    );
    assert!(matches!(r, Err(DecodeError::MalformedRecord)));
}

#[test]
fn not_json_is_its_own_error() {
    let r = Edition::from_body("not json at all {");
    assert!(matches!(r, Err(DecodeError::NotJson)));
}

#[test]
fn edition_notes_of_wrong_shape_are_rejected_not_defaulted() {
    let r = Edition::from_body(
        r#"{"key": "/books/OL1M", "title": "T", "type": {"key": "/type/edition"},
            "works": [{"key": "/works/OL1W"}], "notes": 17, "revision": 1,
            "created": {"type": "d", "value": "v"},
            "last_modified": {"type": "d", "value": "v"}}"#,
    );
    assert!(matches!(
        r,
        Err(DecodeError::UnexpectedFieldShape {
            field: AmbiguousField::Notes,
            observed: WireKind::Number,
        })
    ));
    let r = Edition::from_body(
        r#"{"key": "/books/OL1M", "title": "T", "type": {"key": "/type/edition"},
            "works": [{"key": "/works/OL1W"}], "notes": ["a", "b"], "revision": 1,
            "created": {"type": "d", "value": "v"},
            "last_modified": {"type": "d", "value": "v"}}"#,
    );
    assert!(matches!(
        r,
        Err(DecodeError::UnexpectedFieldShape {
            field: AmbiguousField::Notes,
            observed: WireKind::List,
        })
    ));
}

const WORK_BODY: &str = r#"{
    "key": "/works/OL17859861W",
    "title": "Anarchism and Other Essays",
    "type": {"key": "/type/work"},
    "authors": [
        {"type": {"key": "/type/author_role"}, "author": {"key": "/authors/OL29497A"}},
        {"type": {"key": "/type/author_role"}, "author": {"key": "/authors/OL99999A"}}
    ],
    "description": {"type": "/type/text", "value": "Essays on anarchism."},
    "subjects": ["Anarchism"],
    "revision": 3,
    "last_modified": {"type": "/type/datetime", "value": "2021-01-01T00:00:00"}
}"#;

#[test]
fn work_materializes_from_json() {
    let w = Work::from_body(WORK_BODY).unwrap();
    assert_eq!(w.key, "/works/OL17859861W");
    assert_eq!(w.title, "Anarchism and Other Essays");
    assert_eq!(w.type_field.key, "/type/work");
    let authors = w.authors.as_ref().unwrap();
    assert_eq!(authors.len(), 2);
    assert_eq!(authors[0].author.key, "/authors/OL29497A");
    assert_eq!(authors[0].type_field.key, "/type/author_role");
    let d = w.description.as_ref().unwrap();
    assert_eq!(d.type_field, "/type/text");
    assert_eq!(d.value, "Essays on anarchism.");
    // created may be absent on work records
    assert_eq!(w.created, None);
}

#[test]
fn work_author_ids_keep_server_order() {
    let w = Work::from_body(WORK_BODY).unwrap();
    assert_eq!(
        w.get_authors_ids(),
        vec![
            "/authors/OL29497A".to_string(),
            "/authors/OL99999A".to_string()
        ]
    );
}

#[test]
fn work_description_from_bare_text() {
    let w = Work::from_body(
        r#"{"key": "/works/OL1W", "title": "T", "type": {"key": "/type/work"},
            "description": "Plain prose.", "revision": 1,
            "last_modified": {"type": "d", "value": "v"}}"#,
    )
    .unwrap();
    let d = w.description.unwrap();
    assert_eq!(d.type_field, "text");
    assert_eq!(d.value, "Plain prose.");
}

const AUTHOR_BARE_BIO: &str = r#"{
    "key": "/authors/OL29497A",
    "name": "Emma Goldman",
    "type": {"key": "/type/author"},
    "bio": "A writer.",
    "birth_date": "27 June 1869",
    "alternate_names": ["E. Goldman"],
    "photos": [7277571],
    "remote_ids": {"viaf": "59094541", "wikidata": "Q79969", "isni": "0000000121339914"},
    "revision": 5,
    "last_modified": {"type": "/type/datetime", "value": "2022-01-01T00:00:00"}
}"#;

const AUTHOR_STRUCTURED_BIO: &str = r#"{
    "key": "/authors/OL29497A",
    "name": "Emma Goldman",
    "type": {"key": "/type/author"},
    "bio": {"type": "/type/text", "value": "A writer."},
    "revision": 5,
    "last_modified": {"type": "/type/datetime", "value": "2022-01-01T00:00:00"}
}"#;

#[test]
fn author_materializes_from_json() {
    let a = Author::from_body(AUTHOR_BARE_BIO).unwrap();
    assert_eq!(a.key, "/authors/OL29497A");
    assert_eq!(a.name, "Emma Goldman");
    assert_eq!(a.type_field.key, "/type/author");
    assert_eq!(a.birth_date.as_deref(), Some("27 June 1869"));
    assert_eq!(a.alternate_names, Some(vec!["E. Goldman".to_string()]));
    assert_eq!(a.photos, Some(vec![7277571]));
    let ids = a.remote_ids.unwrap();
    assert_eq!(ids.viaf, "59094541");
    assert_eq!(ids.wikidata, "Q79969");
    assert_eq!(ids.isni, "0000000121339914");
}

#[test]
fn author_bio_text_round_trips_through_either_wire_shape() {
    let bare = Author::from_body(AUTHOR_BARE_BIO).unwrap();
    let structured = Author::from_body(AUTHOR_STRUCTURED_BIO).unwrap();
    let bare_bio = bare.bio.unwrap();
    let structured_bio = structured.bio.unwrap();
    // the text content is identical whichever wire shape carried it
    assert_eq!(bare_bio.value, "A writer.");
    assert_eq!(structured_bio.value, "A writer.");
    // bare text is wrapped under the default kind
    assert_eq!(bare_bio.type_field, "text");
    // a structured object keeps its own type tag exactly
    assert_eq!(structured_bio.type_field, "/type/text");
}

#[test]
fn author_without_bio_stays_empty_not_an_error() {
    let a = Author::from_body(
        r#"{"key": "/authors/OL1A", "name": "N", "type": {"key": "/type/author"},
            "revision": 1, "last_modified": {"type": "d", "value": "v"}}"#,
    )
    .unwrap();
    assert_eq!(a.bio, None);
}

#[test]
fn author_bio_of_wrong_shape_is_rejected_not_defaulted() {
    let r = Author::from_body(
        r#"{"key": "/authors/OL1A", "name": "N", "type": {"key": "/type/author"},
            "bio": 42, "revision": 1, "last_modified": {"type": "d", "value": "v"}}"#,
    );
    assert!(matches!(
        r,
        Err(DecodeError::UnexpectedFieldShape {
            field: AmbiguousField::Bio,
            observed: WireKind::Number,
        })
    ));
}

#[test]
fn numbers_that_fit_no_wire_integer_are_malformed() {
    // a fraction where an integer list is expected
    let r = Edition::from_body(
        r#"{"key": "/books/OL1M", "title": "T", "type": {"key": "/type/edition"},
            "works": [{"key": "/works/OL1W"}], "covers": [1.5], "revision": 1,
            "created": {"type": "d", "value": "v"},
            "last_modified": {"type": "d", "value": "v"}}"#,
    );
    assert!(matches!(r, Err(DecodeError::MalformedRecord)));
    // a fraction where the revision count is expected
    let r = Edition::from_body(
        r#"{"key": "/books/OL1M", "title": "T", "type": {"key": "/type/edition"},
            "works": [{"key": "/works/OL1W"}], "revision": 1.5,
            "created": {"type": "d", "value": "v"},
            "last_modified": {"type": "d", "value": "v"}}"#,
    );
    assert!(matches!(r, Err(DecodeError::MalformedRecord)));
}

#[test]
fn structured_description_without_value_is_an_unexpected_shape() {
    let r = Work::from_body(
        r#"{"key": "/works/OL1W", "title": "T", "type": {"key": "/type/work"},
            "description": {"type": "/type/text"}, "revision": 1,
            "last_modified": {"type": "d", "value": "v"}}"#,
    );
    assert!(matches!(
        r,
        Err(DecodeError::UnexpectedFieldShape {
            field: AmbiguousField::Description,
            observed: WireKind::Structured,
        })
    ));
}

#[test]
fn work_author_entry_members_default_when_absent() {
    let w = Work::from_body(
        r#"{"key": "/works/OL1W", "title": "T", "type": {"key": "/type/work"},
            "authors": [{"author": {"key": "/authors/OL1A"}}], "revision": 1,
            "last_modified": {"type": "d", "value": "v"}}"#,
    )
    .unwrap();
    let authors = w.authors.as_ref().unwrap();
    assert_eq!(authors[0].author.key, "/authors/OL1A");
    assert_eq!(authors[0].key, "");
    assert_eq!(authors[0].type_field.key, "");
}
