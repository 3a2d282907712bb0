use openlibrary_client::codec::build_cover_path;
use openlibrary_client::codec::build_lookup_path;
use openlibrary_client::codec::cover_uri;
use openlibrary_client::codec::extract_short_id;
use openlibrary_client::codec::CodecError;
use openlibrary_client::codec::RecordKind;
use openlibrary_client::Client;
use openlibrary_client::CoverKey;
use openlibrary_client::CoverSize;
use openlibrary_client::QueryType;

#[test]
fn short_id_of_path_key() {
    assert_eq!(extract_short_id("/authors/OL123A"), "OL123A");
    assert_eq!(extract_short_id("/works/OL17859861W"), "OL17859861W");
    assert_eq!(extract_short_id("/books/OL7353617M"), "OL7353617M");
}

#[test]
fn short_id_of_bare_key_is_identity() {
    assert_eq!(extract_short_id("OL123A"), "OL123A");
    assert_eq!(extract_short_id(""), "");
}

#[test]
fn short_id_after_last_separator_only() {
    assert_eq!(extract_short_id("a/b/c"), "c");
    assert_eq!(extract_short_id("/a/b/"), "");
}

#[test]
fn short_id_is_idempotent() {
    for key in ["/authors/OL123A", "OL123A", "a/b/c", "", "/x/"] {
        let once = extract_short_id(key);
        let twice = extract_short_id(&once);
        assert_eq!(once, twice);
    }
}

#[test]
fn lookup_path_by_isbn() {
    let r = build_lookup_path(
        RecordKind::Edition,
        QueryType::ISBN("9781849352826".to_string()),
    );
    assert_eq!(r.unwrap(), "/isbn/9781849352826.json");
}

#[test]
fn lookup_path_by_key_uses_short_id() {
    let r = build_lookup_path(
        RecordKind::Work,
        QueryType::OLID("/works/OL17859861W".to_string()),
    );
    assert_eq!(r.unwrap(), "/q/OL17859861W.json");
    let r = build_lookup_path(RecordKind::Author, QueryType::OLID("OL29497A".to_string()));
    assert_eq!(r.unwrap(), "/q/OL29497A.json");
}

#[test]
fn empty_identifier_is_rejected() {
    let r = build_lookup_path(RecordKind::Edition, QueryType::ISBN(String::new()));
    assert_eq!(r, Err(CodecError::InvalidIdentifier));
    let r = build_lookup_path(RecordKind::Work, QueryType::OLID(String::new()));
    assert_eq!(r, Err(CodecError::InvalidIdentifier));
    // a key that reduces to an empty short id is as empty
    let r = build_lookup_path(RecordKind::Work, QueryType::OLID("/works/".to_string()));
    assert_eq!(r, Err(CodecError::InvalidIdentifier));
}

#[test]
fn cover_path_for_isbn() {
    let r = build_cover_path(CoverSize::L, CoverKey::ISBN("9781849352826".to_string()));
    assert_eq!(r.unwrap(), "/b/isbn/9781849352826-L.jpg");
    let r = build_cover_path(CoverSize::S, CoverKey::ISBN("9781849352826".to_string()));
    assert_eq!(r.unwrap(), "/b/isbn/9781849352826-S.jpg");
    let r = build_cover_path(CoverSize::M, CoverKey::ISBN("9781849352826".to_string()));
    assert_eq!(r.unwrap(), "/b/isbn/9781849352826-M.jpg");
}

#[test]
fn cover_path_unsupported_key_kinds() {
    let r = build_cover_path(CoverSize::L, CoverKey::OCLC("123".to_string()));
    assert_eq!(r, Err(CodecError::UnsupportedCoverKey));
    let r = build_cover_path(CoverSize::L, CoverKey::LCCN("123".to_string()));
    assert_eq!(r, Err(CodecError::UnsupportedCoverKey));
    let r = build_cover_path(CoverSize::L, CoverKey::OLID("OL1M".to_string()));
    assert_eq!(r, Err(CodecError::UnsupportedCoverKey));
    let r = build_cover_path(CoverSize::L, CoverKey::ID("1".to_string()));
    assert_eq!(r, Err(CodecError::UnsupportedCoverKey));
}

#[test]
fn cover_path_empty_isbn_is_rejected() {
    let r = build_cover_path(CoverSize::L, CoverKey::ISBN(String::new()));
    assert_eq!(r, Err(CodecError::InvalidIdentifier));
}

#[test]
fn client_roots_lookups_at_its_base_url() {
    let client = Client::new();
    let r = client.lookup_uri(
        RecordKind::Edition,
        QueryType::ISBN("9781849352826".to_string()),
    );
    assert_eq!(r.unwrap(), "https://openlibrary.org/isbn/9781849352826.json");

    let mirror = Client::with_base_url("http://localhost:8080".to_string());
    let r = mirror.lookup_uri(
        RecordKind::Work,
        QueryType::OLID("/works/OL17859861W".to_string()),
    );
    assert_eq!(r.unwrap(), "http://localhost:8080/q/OL17859861W.json");
}

#[test]
fn cover_uri_uses_the_image_origin() {
    let r = cover_uri(CoverSize::L, CoverKey::ISBN("9781849352826".to_string()));
    assert_eq!(
        r.unwrap(),
        "https://covers.openlibrary.org/b/isbn/9781849352826-L.jpg"
    );
}
