//! Identifier codec: translation between the catalog's external vocabulary
//! (cross-reference keys, ISBN strings) and the concrete lookup paths the
//! service understands.

use vstd::prelude::*;
use vstd::string::StrSliceExecFns;
use vstd::string::StringExecFns;

verus! {

/// The trailing segment of a cross-reference key: everything strictly after
/// the last `/`, or the whole key when no `/` occurs in it.
pub open spec fn short_id_of(s: Seq<char>) -> Seq<char>
    decreases s.len(),
{
    if s.len() == 0 {
        s
    } else if s.last() == '/' {
        Seq::empty()
    } else {
        short_id_of(s.drop_last()).push(s.last())
    }
}

/// Whether a key contains at least one separator.
pub open spec fn has_separator(s: Seq<char>) -> bool {
    exists|i: int| 0 <= i < s.len() && s[i] == '/'
}

/// Returns the short identifier of a cross-reference key: the substring
/// strictly after the last `/`, or the key unchanged when it holds no `/`.
/// Never fails; the absence of a separator is the identity case.
pub fn extract_short_id(key: &str) -> (r: String)
    ensures
        r@ == short_id_of(key@),
{
    let len = key.unicode_len();
    let mut i: usize = len;
    loop
        invariant
            i <= len,
            len == key@.len(),
            forall|k: int| i <= k < len ==> key@[k] != '/',
        ensures
            i <= len,
            len == key@.len(),
            forall|k: int| i <= k < len ==> key@[k] != '/',
            i > 0 ==> key@[i - 1] == '/',
        decreases i,
    {
        if i == 0 {
            break;
        }
        if key.get_char(i - 1) == '/' {
            break;
        }
        i = i - 1;
    }
    let r = key.substring_char(i, len).to_owned();
    proof {
        if i > 0 {
            lemma_short_id_after_separator(key@, i - 1);
        } else {
            assert(!has_separator(key@));
            lemma_short_id_without_separator(key@);
            assert(r@ =~= key@);
        }
    }
    r
}

/// A key without a separator is its own short identifier.
pub proof fn lemma_short_id_without_separator(s: Seq<char>)
    requires
        !has_separator(s),
    ensures
        short_id_of(s) == s,
    decreases s.len(),
{
    if s.len() > 0 {
        assert(s[s.len() - 1] != '/');
        assert(!has_separator(s.drop_last())) by {
            assert(forall|i: int|
                0 <= i < s.drop_last().len() ==> s.drop_last()[i] == s[i] && s[i] != '/');
        }
        lemma_short_id_without_separator(s.drop_last());
        assert(short_id_of(s) =~= s);
    } else {
        assert(short_id_of(s) =~= s);
    }
}

/// When the last separator of a key stands at `j`, the short identifier is
/// the substring strictly after it.
pub proof fn lemma_short_id_after_separator(s: Seq<char>, j: int)
    requires
        0 <= j < s.len(),
        s[j] == '/',
        forall|k: int| j < k < s.len() ==> s[k] != '/',
    ensures
        short_id_of(s) == s.subrange(j + 1, s.len() as int),
    decreases s.len(),
{
    if j == s.len() - 1 {
        assert(short_id_of(s) =~= s.subrange(j + 1, s.len() as int));
    } else {
        assert(s.last() != '/');
        assert(s.drop_last()[j] == s[j]);
        lemma_short_id_after_separator(s.drop_last(), j);
        assert(short_id_of(s) =~= s.subrange(j + 1, s.len() as int));
    }
}

/// A short identifier never contains a separator itself.
pub proof fn lemma_short_id_has_no_separator(s: Seq<char>)
    ensures
        !has_separator(short_id_of(s)),
    decreases s.len(),
{
    if s.len() == 0 {
    } else if s.last() == '/' {
    } else {
        lemma_short_id_has_no_separator(s.drop_last());
        let r0 = short_id_of(s.drop_last());
        let r = short_id_of(s);
        assert forall|i: int| 0 <= i < r.len() implies r[i] != '/' by {
            if i < r0.len() {
                assert(r[i] == r0[i]);
            } else {
                assert(r[i] == s.last());
            }
        }
    }
}

/// Where a key holds a separator, this names the position of its last one.
pub proof fn lemma_last_separator_exists(s: Seq<char>) -> (j: int)
    requires
        has_separator(s),
    ensures
        0 <= j < s.len(),
        s[j] == '/',
        forall|k: int| j < k < s.len() ==> s[k] != '/',
    decreases s.len(),
{
    if s.last() == '/' {
        s.len() - 1
    } else {
        assert(has_separator(s.drop_last())) by {
            let i = choose|i: int| 0 <= i < s.len() && s[i] == '/';
            assert(s.drop_last()[i] == '/');
        }
        let j = lemma_last_separator_exists(s.drop_last());
        assert(s[j] == s.drop_last()[j]);
        assert forall|k: int| j < k < s.len() implies s[k] != '/' by {
            if k < s.len() - 1 {
                assert(s.drop_last()[k] == s[k]);
            } else {
                assert(s[k] == s.last());
            }
        }
        j
    }
}

/// Law: on a key with at least one separator, the short identifier is the
/// substring strictly after the last one; on a key without a separator it
/// is the key unchanged; and taking the short identifier twice gives the
/// same result as taking it once.
pub proof fn lemma_short_id_law(s: Seq<char>)
    ensures
        has_separator(s) ==> exists|j: int|
            0 <= j < s.len() && s[j] == '/' && (forall|k: int|
                j < k < s.len() ==> s[k] != '/') && short_id_of(s) == s.subrange(
                j + 1,
                s.len() as int,
            ),
        !has_separator(s) ==> short_id_of(s) == s,
        short_id_of(short_id_of(s)) == short_id_of(s),
{
    if has_separator(s) {
        let j = lemma_last_separator_exists(s);
        lemma_short_id_after_separator(s, j);
        assert(0 <= j < s.len() && s[j] == '/' && (forall|k: int|
            j < k < s.len() ==> s[k] != '/') && short_id_of(s) == s.subrange(
            j + 1,
            s.len() as int,
        ));
    } else {
        lemma_short_id_without_separator(s);
    }
    lemma_short_id_has_no_separator(s);
    lemma_short_id_without_separator(short_id_of(s));
}

/// The route families of the catalog service.
#[derive(Clone, Copy, Debug)]
pub enum Paths {
    Works,
    Authors,
    Books,
    ISBN,
}

/// The record kind a lookup path is built for.
#[derive(Clone, Copy, Debug)]
pub enum RecordKind {
    Edition,
    Work,
    Author,
}

/// How a record lookup is keyed: by a cross-reference key (OLID style) or
/// by an ISBN.
#[derive(Clone, Debug)]
pub enum QueryType {
    OLID(String),
    ISBN(String),
}

/// The size tag of a cover image.
#[derive(Clone, Copy, Debug)]
pub enum CoverSize {
    S,
    M,
    L,
}

/// The key kinds the cover-image endpoint is addressed by.
#[derive(Clone, Debug)]
pub enum CoverKey {
    ISBN(String),
    OCLC(String),
    LCCN(String),
    OLID(String),
    ID(String),
}

/// Why no lookup path could be built.
#[derive(Clone, Copy, Debug, PartialEq, Eq)]
pub enum CodecError {
    /// The identifier handed in was empty or reduced to an empty short id.
    InvalidIdentifier,
    /// The current catalog serves cover images only for ISBN keys; for any
    /// other key kind no request is built at all.
    UnsupportedCoverKey,
}

/// The lookup path for an edition addressed by ISBN.
pub open spec fn isbn_lookup_path(isbn: Seq<char>) -> Seq<char> {
    "/isbn/"@ + isbn + ".json"@
}

/// The lookup path for a record addressed by its short identifier.
pub open spec fn id_lookup_path(id: Seq<char>) -> Seq<char> {
    "/q/"@ + id + ".json"@
}

/// The size letter that the cover endpoint expects for a size tag.
pub open spec fn cover_size_letter(size: CoverSize) -> Seq<char> {
    match size {
        CoverSize::S => "S"@,
        CoverSize::M => "M"@,
        CoverSize::L => "L"@,
    }
}

/// The cover-image path for an ISBN and a size tag.
pub open spec fn cover_lookup_path(isbn: Seq<char>, size: CoverSize) -> Seq<char> {
    "/b/isbn/"@ + isbn + "-"@ + cover_size_letter(size) + ".jpg"@
}

/// Builds the relative request path for one record lookup. ISBN-keyed
/// lookups use the fixed ISBN route; everything else is looked up by the
/// short identifier extracted from the cross-reference key. An empty
/// identifier (or a key whose short id is empty) is rejected, never turned
/// into a path. The catalog routes every id-indexed lookup through the
/// same endpoint, so the record kind selects no route of its own: the
/// query's own family decides the path.
pub fn build_lookup_path(kind: RecordKind, query: QueryType) -> (r: Result<String, CodecError>)
    ensures
        match query {
            QueryType::ISBN(isbn) => {
                if isbn@.len() == 0 {
                    r == Err::<String, CodecError>(CodecError::InvalidIdentifier)
                } else {
                    r matches Ok(p) && p@ == isbn_lookup_path(isbn@)
                }
            },
            QueryType::OLID(key) => {
                if short_id_of(key@).len() == 0 {
                    r == Err::<String, CodecError>(CodecError::InvalidIdentifier)
                } else {
                    r matches Ok(p) && p@ == id_lookup_path(short_id_of(key@))
                }
            },
        },
{
    let _ = kind;
    match query {
        QueryType::ISBN(isbn) => {
            if isbn.unicode_len() == 0 {
                Err(CodecError::InvalidIdentifier)
            } else {
                let mut p = "/isbn/".to_owned();
                p.append(isbn.as_str());
                p.append(".json");
                proof {
                    assert(p@ =~= isbn_lookup_path(isbn@));
                }
                Ok(p)
            }
        },
        QueryType::OLID(key) => {
            let id = extract_short_id(key.as_str());
            if id.as_str().unicode_len() == 0 {
                Err(CodecError::InvalidIdentifier)
            } else {
                let mut p = "/q/".to_owned();
                p.append(id.as_str());
                p.append(".json");
                proof {
                    assert(p@ =~= id_lookup_path(short_id_of(key@)));
                }
                Ok(p)
            }
        },
    }
}

/// Builds the image-endpoint path for a cover lookup. Only ISBN keys are
/// supported by the current catalog: any other key kind yields
/// `UnsupportedCoverKey`, so a caller can tell "no request built" apart
/// from a request that would merely miss.
pub fn build_cover_path(size: CoverSize, key: CoverKey) -> (r: Result<String, CodecError>)
    ensures
        match key {
            CoverKey::ISBN(isbn) => {
                if isbn@.len() == 0 {
                    r == Err::<String, CodecError>(CodecError::InvalidIdentifier)
                } else {
                    r matches Ok(p) && p@ == cover_lookup_path(isbn@, size)
                }
            },
            _ => r == Err::<String, CodecError>(CodecError::UnsupportedCoverKey),
        },
{
    match key {
        CoverKey::ISBN(isbn) => {
            if isbn.unicode_len() == 0 {
                Err(CodecError::InvalidIdentifier)
            } else {
                let mut p = "/b/isbn/".to_owned();
                p.append(isbn.as_str());
                p.append("-");
                match size {
                    CoverSize::S => p.append("S"),
                    CoverSize::M => p.append("M"),
                    CoverSize::L => p.append("L"),
                }
                p.append(".jpg");
                proof {
                    assert(p@ =~= cover_lookup_path(isbn@, size));
                }
                Ok(p)
            }
        },
        CoverKey::OCLC(_) => Err(CodecError::UnsupportedCoverKey),
        CoverKey::LCCN(_) => Err(CodecError::UnsupportedCoverKey),
        CoverKey::OLID(_) => Err(CodecError::UnsupportedCoverKey),
        CoverKey::ID(_) => Err(CodecError::UnsupportedCoverKey),
    }
}

/// A handle on one catalog mirror: the base URL that every record lookup
/// is rooted at. Cover images live on a distinct origin, see `cover_uri`.
pub struct Client {
    base_url: String,
}

impl Client {
    /// The base URL this client roots record lookups at.
    pub closed spec fn spec_base_url(&self) -> Seq<char> {
        self.base_url@
    }

    /// A client for the public catalog.
    pub fn new() -> (c: Client)
        ensures
            c.spec_base_url() == "https://openlibrary.org"@,
    {
        Client { base_url: "https://openlibrary.org".to_owned() }
    }

    /// A client rooted at another mirror of the catalog.
    pub fn with_base_url(base_url: String) -> (c: Client)
        ensures
            c.spec_base_url() == base_url@,
    {
        Client { base_url }
    }

    /// The fully-qualified URI for one record lookup: the base URL followed
    /// by the relative lookup path.
    pub fn lookup_uri(&self, kind: RecordKind, query: QueryType) -> (r: Result<
        String,
        CodecError,
    >)
        ensures
            match query {
                QueryType::ISBN(isbn) => {
                    if isbn@.len() == 0 {
                        r == Err::<String, CodecError>(CodecError::InvalidIdentifier)
                    } else {
                        r matches Ok(u) && u@ == self.spec_base_url() + isbn_lookup_path(isbn@)
                    }
                },
                QueryType::OLID(key) => {
                    if short_id_of(key@).len() == 0 {
                        r == Err::<String, CodecError>(CodecError::InvalidIdentifier)
                    } else {
                        r matches Ok(u) && u@ == self.spec_base_url() + id_lookup_path(
                            short_id_of(key@),
                        )
                    }
                },
            },
    {
        match build_lookup_path(kind, query) {
            Ok(path) => {
                let mut u = self.base_url.clone();
                u.append(path.as_str());
                Ok(u)
            },
            Err(e) => Err(e),
        }
    }
}

/// The origin that serves cover images; distinct from the record origin.
pub fn cover_base_url() -> (r: String)
    ensures
        r@ == "https://covers.openlibrary.org"@,
{
    "https://covers.openlibrary.org".to_owned()
}

/// The fully-qualified URI of a cover image: the image origin followed by
/// the relative cover path.
pub fn cover_uri(size: CoverSize, key: CoverKey) -> (r: Result<String, CodecError>)
    ensures
        match key {
            CoverKey::ISBN(isbn) => {
                if isbn@.len() == 0 {
                    r == Err::<String, CodecError>(CodecError::InvalidIdentifier)
                } else {
                    r matches Ok(u) && u@ == "https://covers.openlibrary.org"@ + cover_lookup_path(
                        isbn@,
                        size,
                    )
                }
            },
            _ => r == Err::<String, CodecError>(CodecError::UnsupportedCoverKey),
        },
{
    match build_cover_path(size, key) {
        Ok(path) => {
            let mut u = cover_base_url();
            u.append(path.as_str());
            Ok(u)
        },
        Err(e) => Err(e),
    }
}

} // verus!
