//! The work record: the abstract literary work behind one or more
//! editions, with its ordered author references.

use crate::ambiguous::canonical_matches;
use crate::ambiguous::canonical_wf;
use crate::ambiguous::decode_ambiguous;
use crate::ambiguous::wire_kind_of;
use crate::ambiguous::AmbiguousField;
use crate::ambiguous::DecodeError;
use crate::decode::i64_list_matches;
use crate::decode::i64_list_wf;
use crate::decode::key_of;
use crate::decode::member_of;
use crate::decode::opt_key_of;
use crate::decode::opt_str_list_matches;
use crate::decode::opt_str_list_wf;
use crate::decode::opt_text_wf;
use crate::decode::opt_unsigned_wf;
use crate::decode::req_text_wf;
use crate::decode::req_unsigned_wf;
use crate::decode::spec_wire_of;
use crate::decode::text_member;
use crate::decode::typed_value_matches;
use crate::decode::typed_value_wf;
use crate::decode::unsigned_member;
use crate::decode::member_opt_i64_list;
use crate::decode::member_opt_key;
use crate::decode::member_opt_str;
use crate::decode::member_opt_str_list;
use crate::decode::member_opt_typed_value;
use crate::decode::member_opt_u64;
use crate::decode::member_req_str;
use crate::decode::member_req_u64;
use crate::decode::member_wire;
use crate::decode::get_member;
use crate::json::json_of;
use crate::json::parse_json;
use crate::json::JsonValue;
use vstd::prelude::*;
use vstd::string::StrSliceExecFns;

verus! {

/// One work of the catalog. `key` is its own cross-reference key and is
/// never empty in a materialized record; `authors`, when present, keeps
/// the server's order — the first entry is the primary author.
#[derive(Clone, Debug, PartialEq)]
pub struct Work {
    pub key: String,
    pub title: String,
    pub subtitle: Option<String>,
    pub type_field: Type,
    pub authors: Option<Vec<Authors>>,
    pub covers: Option<Vec<i64>>,
    pub links: Option<Vec<Link>>,
    pub id: Option<Id>,
    pub lc_classifications: Option<Vec<String>>,
    pub subjects: Option<Vec<String>>,
    pub first_publish_date: Option<String>,
    pub description: Option<Description>,
    pub notes: Option<String>,
    pub revision: u64,
    pub latest_revision: Option<u64>,
    pub created: Option<Created>,
    pub last_modified: LastModified,
}

impl Work {
    /// A materialized work always carries its own cross-reference key.
    pub open spec fn wf(&self) -> bool {
        self.key@.len() > 0
    }

    /// The cross-reference keys of this work's authors, unwrapped from
    /// their type-tagged entries, in server order. The record must carry
    /// an author list.
    pub fn get_authors_ids(&self) -> (r: Vec<String>)
        requires
            self.authors is Some,
        ensures
            r@.len() == self.authors->0@.len(),
            forall|i: int| 0 <= i < r@.len() ==> r@[i]@ == self.authors->0@[i].author.key@,
    {
        let mut author_ids: Vec<String> = Vec::new();
        let authors = self.authors.as_ref().unwrap();
        let mut i: usize = 0;
        while i < authors.len()
            invariant
                i <= authors@.len(),
                author_ids@.len() == i,
                forall|j: int| 0 <= j < i ==> author_ids@[j]@ == authors@[j].author.key@,
            decreases authors@.len() - i,
        {
            author_ids.push(authors[i].author.key.clone());
            i = i + 1;
        }
        author_ids
    }

    /// Materializes a work from its parsed JSON record: succeeds exactly
    /// when the record is a well-formed work, and then every field holds
    /// exactly what the record's member carries.
    #[verifier::rlimit(100)]
    pub fn from_json(v: &JsonValue) -> (r: Result<Work, DecodeError>)
        ensures
            (r is Ok) == work_wire_wf(*v),
            r matches Ok(w) ==> work_matches(*v, w) && w.wf(),
            r matches Err(e) ==> (e matches DecodeError::UnexpectedFieldShape {
                field: f,
                observed: o,
            } ==> f == AmbiguousField::Description && (member_of(*v, "description"@) matches Some(
                m,
            ) && o == wire_kind_of(spec_wire_of(m)) && !canonical_wf(spec_wire_of(m)))),
            r == Err::<Work, DecodeError>(DecodeError::MalformedRecord) ==> !work_plain_wf(*v),
            r matches Err(e) ==> !(e is NotJson),
    {
        let key = member_req_str(v, "key")?;
        if key.as_str().unicode_len() == 0 {
            return Err(DecodeError::MalformedRecord);
        }
        let title = member_req_str(v, "title")?;
        let type_key = match member_opt_key(v, "type")? {
            Some(k) => k,
            None => {
                return Err(DecodeError::MalformedRecord);
            },
        };
        let authors = authors_member(v)?;
        let links = links_member(v)?;
        let id = id_member(v)?;
        let description = match member_wire(v, "description") {
            Some(w) => {
                let c = decode_ambiguous(AmbiguousField::Description, &w)?;
                Some(Description { type_field: c.kind, value: c.value })
            },
            None => None,
        };
        let created = match member_opt_typed_value(v, "created")? {
            Some((type_field, value)) => Some(Created { type_field, value }),
            None => None,
        };
        let last_modified = match member_opt_typed_value(v, "last_modified")? {
            Some((type_field, value)) => LastModified { type_field, value },
            None => {
                return Err(DecodeError::MalformedRecord);
            },
        };
        Ok(
            Work {
                key,
                title,
                subtitle: member_opt_str(v, "subtitle")?,
                type_field: Type { key: type_key },
                authors,
                covers: member_opt_i64_list(v, "covers")?,
                links,
                id,
                lc_classifications: member_opt_str_list(v, "lc_classifications")?,
                subjects: member_opt_str_list(v, "subjects")?,
                first_publish_date: member_opt_str(v, "first_publish_date")?,
                description,
                notes: member_opt_str(v, "notes")?,
                revision: member_req_u64(v, "revision")?,
                latest_revision: member_opt_u64(v, "latest_revision")?,
                created,
                last_modified,
            },
        )
    }

    /// Materializes a work from the raw text of its record: the text must
    /// be JSON, and the parsed record a well-formed work; then every field
    /// holds exactly what the record's member carries.
    pub fn from_body(body: &str) -> (r: Result<Work, DecodeError>)
        ensures
            json_of(body@) is None ==> r == Err::<Work, DecodeError>(DecodeError::NotJson),
            json_of(body@) matches Some(j) ==> {
                &&& (r is Ok) == work_wire_wf(j)
                &&& (r matches Ok(w) ==> work_matches(j, w) && w.wf())
                &&& (r matches Err(e) ==> (e matches DecodeError::UnexpectedFieldShape {
                    field: f,
                    observed: o,
                } ==> f == AmbiguousField::Description && (member_of(j, "description"@) matches Some(
                    m,
                ) && o == wire_kind_of(spec_wire_of(m)) && !canonical_wf(spec_wire_of(m)))))
                &&& (r == Err::<Work, DecodeError>(DecodeError::MalformedRecord) ==> !work_plain_wf(
                    j,
                ))
            },
    {
        match parse_json(body) {
            Some(v) => Work::from_json(&v),
            None => Err(DecodeError::NotJson),
        }
    }
}

/// The view of an optional text, with absence as the empty text: the
/// wire's author entries leave absent members empty rather than failing.
pub open spec fn opt_text_or_empty(o: Option<String>) -> Seq<char> {
    match o {
        Option::Some(s) => s@,
        Option::None => ""@,
    }
}

/// A well-formed author entry of a work: each of its three members may be
/// absent, but one that is present has the right shape.
pub open spec fn author_entry_wf(m: JsonValue) -> bool {
    &&& opt_text_wf(m, "key"@)
    &&& (match member_of(m, "type"@) {
        Option::None => true,
        Option::Some(t) => key_of(t) is Some,
    })
    &&& (match member_of(m, "author"@) {
        Option::None => true,
        Option::Some(t) => key_of(t) is Some,
    })
}

/// `a` holds exactly the texts of the entry's members, with absent
/// members empty.
pub open spec fn author_entry_matches(m: JsonValue, a: Authors) -> bool {
    &&& a.key@ == opt_text_or_empty(text_member(m, "key"@))
    &&& a.type_field.key@ == opt_text_or_empty(opt_key_of(m, "type"@))
    &&& a.author.key@ == opt_text_or_empty(opt_key_of(m, "author"@))
}

/// A well-formed author list: an array of well-formed entries.
pub open spec fn author_entries_wf(m: JsonValue) -> bool {
    m matches JsonValue::Array(a) && forall|i: int| 0 <= i < a@.len() ==> author_entry_wf(a@[i])
}

/// `v` holds exactly the entries of the author list `m`, in order.
pub open spec fn author_entries_matches(m: JsonValue, v: Seq<Authors>) -> bool {
    m matches JsonValue::Array(a) && v.len() == a@.len() && forall|i: int|
        0 <= i < v.len() ==> author_entry_matches(a@[i], v[i])
}

/// A well-formed link: a URL, a typed reference and a title.
pub open spec fn link_wf(m: JsonValue) -> bool {
    &&& req_text_wf(m, "url"@)
    &&& opt_key_of(m, "type"@) is Some
    &&& req_text_wf(m, "title"@)
}

/// `l` holds exactly the members of the link `m`.
pub open spec fn link_matches(m: JsonValue, l: Link) -> bool {
    &&& Some(l.url) == text_member(m, "url"@)
    &&& Some(l.type_field.key) == opt_key_of(m, "type"@)
    &&& Some(l.title) == text_member(m, "title"@)
}

/// A well-formed link list: an array of well-formed links.
pub open spec fn links_list_wf(m: JsonValue) -> bool {
    m matches JsonValue::Array(a) && forall|i: int| 0 <= i < a@.len() ==> link_wf(a@[i])
}

/// `v` holds exactly the links of the array `m`, in order.
pub open spec fn links_list_matches(m: JsonValue, v: Seq<Link>) -> bool {
    m matches JsonValue::Array(a) && v.len() == a@.len() && forall|i: int|
        0 <= i < v.len() ==> link_matches(a@[i], v[i])
}

/// A well-formed described identifier: two text members.
pub open spec fn id_obj_wf(m: JsonValue) -> bool {
    req_text_wf(m, "description"@) && req_text_wf(m, "type"@)
}

/// `x` holds exactly the two texts of the described identifier `m`.
pub open spec fn id_obj_matches(m: JsonValue, x: Id) -> bool {
    Some(x.description) == text_member(m, "description"@) && Some(x.type_field) == text_member(
        m,
        "type"@,
    )
}

/// A well-formed work record, its ambiguous `description` member aside.
pub open spec fn work_plain_wf(j: JsonValue) -> bool {
    &&& req_text_wf(j, "key"@)
    &&& text_member(j, "key"@) matches Some(k) && k@.len() > 0
    &&& req_text_wf(j, "title"@)
    &&& opt_text_wf(j, "subtitle"@)
    &&& opt_key_of(j, "type"@) is Some
    &&& (match member_of(j, "authors"@) {
        Option::None => true,
        Option::Some(m) => author_entries_wf(m),
    })
    &&& (match member_of(j, "covers"@) {
        Option::None => true,
        Option::Some(m) => i64_list_wf(m),
    })
    &&& (match member_of(j, "links"@) {
        Option::None => true,
        Option::Some(m) => links_list_wf(m),
    })
    &&& (match member_of(j, "id"@) {
        Option::None => true,
        Option::Some(m) => id_obj_wf(m),
    })
    &&& opt_str_list_wf(j, "lc_classifications"@)
    &&& opt_str_list_wf(j, "subjects"@)
    &&& opt_text_wf(j, "first_publish_date"@)
    &&& opt_text_wf(j, "notes"@)
    &&& req_unsigned_wf(j, "revision"@)
    &&& opt_unsigned_wf(j, "latest_revision"@)
    &&& (match member_of(j, "created"@) {
        Option::None => true,
        Option::Some(m) => typed_value_wf(m),
    })
    &&& member_of(j, "last_modified"@) matches Some(m) && typed_value_wf(m)
}

/// The ambiguous `description` member, where present, decodes into the
/// canonical form.
pub open spec fn work_description_wf(j: JsonValue) -> bool {
    match member_of(j, "description"@) {
        Option::None => true,
        Option::Some(m) => canonical_wf(spec_wire_of(m)),
    }
}

/// A well-formed work record, the ambiguous member included.
pub open spec fn work_wire_wf(j: JsonValue) -> bool {
    work_plain_wf(j) && work_description_wf(j)
}

/// Every field of `w` holds exactly what the record `j`'s member of the
/// same name carries: an absent optional member leaves its field empty,
/// and the ambiguous `description` member normalizes by the canonical
/// rules.
pub open spec fn work_matches(j: JsonValue, w: Work) -> bool {
    &&& Some(w.key) == text_member(j, "key"@)
    &&& Some(w.title) == text_member(j, "title"@)
    &&& w.subtitle == text_member(j, "subtitle"@)
    &&& Some(w.type_field.key) == opt_key_of(j, "type"@)
    &&& (match member_of(j, "authors"@) {
        Option::None => w.authors is None,
        Option::Some(m) => w.authors matches Some(v) && author_entries_matches(m, v@),
    })
    &&& (match member_of(j, "covers"@) {
        Option::None => w.covers is None,
        Option::Some(m) => w.covers matches Some(v) && i64_list_matches(m, v@),
    })
    &&& (match member_of(j, "links"@) {
        Option::None => w.links is None,
        Option::Some(m) => w.links matches Some(v) && links_list_matches(m, v@),
    })
    &&& (match member_of(j, "id"@) {
        Option::None => w.id is None,
        Option::Some(m) => w.id matches Some(x) && id_obj_matches(m, x),
    })
    &&& opt_str_list_matches(j, "lc_classifications"@, w.lc_classifications)
    &&& opt_str_list_matches(j, "subjects"@, w.subjects)
    &&& w.first_publish_date == text_member(j, "first_publish_date"@)
    &&& (match member_of(j, "description"@) {
        Option::None => w.description is None,
        Option::Some(m) => w.description matches Some(d) && canonical_matches(
            spec_wire_of(m),
            d.type_field@,
            d.value@,
        ),
    })
    &&& w.notes == text_member(j, "notes"@)
    &&& Some(w.revision) == unsigned_member(j, "revision"@)
    &&& w.latest_revision == unsigned_member(j, "latest_revision"@)
    &&& (match member_of(j, "created"@) {
        Option::None => w.created is None,
        Option::Some(m) => w.created matches Some(c) && typed_value_matches(
            m,
            c.type_field,
            c.value,
        ),
    })
    &&& member_of(j, "last_modified"@) matches Some(m) && typed_value_matches(
        m,
        w.last_modified.type_field,
        w.last_modified.value,
    )
}

fn authors_member(v: &JsonValue) -> (r: Result<Option<Vec<Authors>>, DecodeError>)
    ensures
        match member_of(*v, "authors"@) {
            Option::None => r == Ok::<Option<Vec<Authors>>, DecodeError>(None),
            Option::Some(m) => if author_entries_wf(m) {
                r matches Ok(Some(entries)) && author_entries_matches(m, entries@)
            } else {
                r == Err::<Option<Vec<Authors>>, DecodeError>(DecodeError::MalformedRecord)
            },
        },
{
    let m = match get_member(v, "authors") {
        None => {
            return Ok(None);
        },
        Some(m) => m,
    };
    let arr = match m {
        JsonValue::Array(a) => a,
        _ => {
            return Err(DecodeError::MalformedRecord);
        },
    };
    let mut out: Vec<Authors> = Vec::new();
    let mut i: usize = 0;
    while i < arr.len()
        invariant
            member_of(*v, "authors"@) == Some(*m),
            *m matches JsonValue::Array(a) && a@ == arr@,
            i <= arr@.len(),
            out@.len() == i,
            forall|k: int| 0 <= k < i ==> author_entry_wf(arr@[k]),
            forall|k: int| 0 <= k < i ==> author_entry_matches(arr@[k], out@[k]),
        decreases arr@.len() - i,
    {
        let entry = &arr[i];
        let key = match member_opt_str(entry, "key") {
            Ok(Some(k)) => k,
            Ok(None) => "".to_owned(),
            Err(e) => {
                proof {
                    assert(!author_entry_wf(arr@[i as int]));
                }
                return Err(e);
            },
        };
        let type_key = match member_opt_key(entry, "type") {
            Ok(Some(k)) => k,
            Ok(None) => "".to_owned(),
            Err(e) => {
                proof {
                    assert(!author_entry_wf(arr@[i as int]));
                }
                return Err(e);
            },
        };
        let author_key = match member_opt_key(entry, "author") {
            Ok(Some(k)) => k,
            Ok(None) => "".to_owned(),
            Err(e) => {
                proof {
                    assert(!author_entry_wf(arr@[i as int]));
                }
                return Err(e);
            },
        };
        out.push(
            Authors { key, type_field: Type { key: type_key }, author: Author { key: author_key } },
        );
        i = i + 1;
    }
    Ok(Some(out))
}

fn links_member(v: &JsonValue) -> (r: Result<Option<Vec<Link>>, DecodeError>)
    ensures
        match member_of(*v, "links"@) {
            Option::None => r == Ok::<Option<Vec<Link>>, DecodeError>(None),
            Option::Some(m) => if links_list_wf(m) {
                r matches Ok(Some(entries)) && links_list_matches(m, entries@)
            } else {
                r == Err::<Option<Vec<Link>>, DecodeError>(DecodeError::MalformedRecord)
            },
        },
{
    let m = match get_member(v, "links") {
        None => {
            return Ok(None);
        },
        Some(m) => m,
    };
    let arr = match m {
        JsonValue::Array(a) => a,
        _ => {
            return Err(DecodeError::MalformedRecord);
        },
    };
    let mut out: Vec<Link> = Vec::new();
    let mut i: usize = 0;
    while i < arr.len()
        invariant
            member_of(*v, "links"@) == Some(*m),
            *m matches JsonValue::Array(a) && a@ == arr@,
            i <= arr@.len(),
            out@.len() == i,
            forall|k: int| 0 <= k < i ==> link_wf(arr@[k]),
            forall|k: int| 0 <= k < i ==> link_matches(arr@[k], out@[k]),
        decreases arr@.len() - i,
    {
        let entry = &arr[i];
        let type_key = match member_opt_key(entry, "type") {
            Ok(Some(k)) => k,
            Ok(None) => {
                proof {
                    assert(!link_wf(arr@[i as int]));
                }
                return Err(DecodeError::MalformedRecord);
            },
            Err(e) => {
                proof {
                    assert(!link_wf(arr@[i as int]));
                }
                return Err(e);
            },
        };
        let url = match member_req_str(entry, "url") {
            Ok(x) => x,
            Err(e) => {
                proof {
                    assert(!link_wf(arr@[i as int]));
                }
                return Err(e);
            },
        };
        let title = match member_req_str(entry, "title") {
            Ok(x) => x,
            Err(e) => {
                proof {
                    assert(!link_wf(arr@[i as int]));
                }
                return Err(e);
            },
        };
        out.push(Link { url, type_field: Type { key: type_key }, title });
        i = i + 1;
    }
    Ok(Some(out))
}

fn id_member(v: &JsonValue) -> (r: Result<Option<Id>, DecodeError>)
    ensures
        match member_of(*v, "id"@) {
            Option::None => r == Ok::<Option<Id>, DecodeError>(None),
            Option::Some(m) => if id_obj_wf(m) {
                r matches Ok(Some(x)) && id_obj_matches(m, x)
            } else {
                r == Err::<Option<Id>, DecodeError>(DecodeError::MalformedRecord)
            },
        },
{
    let m = match get_member(v, "id") {
        None => {
            return Ok(None);
        },
        Some(m) => m,
    };
    Ok(
        Some(
            Id {
                description: member_req_str(m, "description")?,
                type_field: member_req_str(m, "type")?,
            },
        ),
    )
}

/// The canonical shape of a work's `description` field.
#[derive(Debug, PartialEq)]
pub struct Description {
    pub type_field: String,
    pub value: String,
}

impl Clone for Description {
    fn clone(&self) -> (r: Self)
        ensures
            r == *self,
    {
        Description { type_field: self.type_field.clone(), value: self.value.clone() }
    }
}

/// The two wire shapes a work's `description` field can legitimately
/// take: bare text, or an already structured `{type, value}` object.
#[derive(Clone, Debug, PartialEq)]
pub enum DescEnum {
    DescString(String),
    DescType(Description),
}

impl DescEnum {
    /// Collapses either wire shape into the canonical `{kind, value}`
    /// form: bare text is wrapped under the default kind `"text"`, a
    /// structured value is already canonical and is kept exactly.
    pub fn normalize(&self) -> (r: Description)
        ensures
            match *self {
                DescEnum::DescString(ref s) => r.type_field@ == "text"@ && r.value@ == s@,
                DescEnum::DescType(ref d) => r == *d,
            },
    {
        match self {
            DescEnum::DescString(s) => Description {
                type_field: "text".to_owned(),
                value: s.clone(),
            },
            DescEnum::DescType(d) => d.clone(),
        }
    }
}

/// A typed reference: the catalog wraps record type tags as
/// `{"key": "/type/..."}`.
#[derive(Debug, PartialEq)]
pub struct Type {
    pub key: String,
}

impl Clone for Type {
    fn clone(&self) -> (r: Self)
        ensures
            r == *self,
    {
        Type { key: self.key.clone() }
    }
}

/// One author entry of a work: the catalog wraps the author's
/// cross-reference key together with a role type tag; any of the three
/// members may be absent on the wire, in which case it stays empty.
#[derive(Debug, PartialEq)]
pub struct Authors {
    pub key: String,
    pub type_field: Type,
    pub author: Author,
}

impl Clone for Authors {
    fn clone(&self) -> (r: Self)
        ensures
            r == *self,
    {
        Authors {
            key: self.key.clone(),
            type_field: self.type_field.clone(),
            author: self.author.clone(),
        }
    }
}

/// The bare author reference inside a work's author entry.
#[derive(Debug, PartialEq)]
pub struct Author {
    pub key: String,
}

impl Clone for Author {
    fn clone(&self) -> (r: Self)
        ensures
            r == *self,
    {
        Author { key: self.key.clone() }
    }
}

/// An external link attached to a work.
#[derive(Clone, Debug, PartialEq)]
pub struct Link {
    pub url: String,
    pub type_field: Type,
    pub title: String,
}

/// A described identifier attached to a work.
#[derive(Clone, Debug, PartialEq)]
pub struct Id {
    pub description: String,
    pub type_field: String,
}

/// The catalog's schema descriptor for a classification reference.
#[derive(Clone, Debug, PartialEq)]
pub struct LcClassifications {
    pub ref_field: String,
}

/// The creation stamp of a record.
#[derive(Debug, PartialEq)]
pub struct Created {
    pub type_field: String,
    pub value: String,
}

impl Clone for Created {
    fn clone(&self) -> (r: Self)
        ensures
            r == *self,
    {
        Created { type_field: self.type_field.clone(), value: self.value.clone() }
    }
}

/// The last-modification stamp of a record.
#[derive(Debug, PartialEq)]
pub struct LastModified {
    pub type_field: String,
    pub value: String,
}

impl Clone for LastModified {
    fn clone(&self) -> (r: Self)
        ensures
            r == *self,
    {
        LastModified { type_field: self.type_field.clone(), value: self.value.clone() }
    }
}

} // verus!
