//! The author record: a person or entity, with its ambiguous `bio` field
//! and its optional remote identifiers on other services.

use crate::ambiguous::canonical_matches;
use crate::ambiguous::canonical_wf;
use crate::ambiguous::decode_ambiguous;
use crate::ambiguous::wire_kind_of;
use crate::ambiguous::AmbiguousField;
use crate::ambiguous::DecodeError;
use crate::decode::examples_obj_matches;
use crate::decode::examples_obj_wf;
use crate::decode::member_of;
use crate::decode::opt_key_of;
use crate::decode::opt_str_list_matches;
use crate::decode::opt_str_list_wf;
use crate::decode::opt_text_wf;
use crate::decode::opt_unsigned_wf;
use crate::decode::req_text_wf;
use crate::decode::req_unsigned_wf;
use crate::decode::spec_wire_of;
use crate::decode::str_list_matches;
use crate::decode::str_list_wf;
use crate::decode::text_member;
use crate::decode::typed_value_matches;
use crate::decode::typed_value_wf;
use crate::decode::u64_list_matches;
use crate::decode::u64_list_wf;
use crate::decode::unsigned_member;
use crate::decode::member_opt_key;
use crate::decode::member_opt_str;
use crate::decode::member_opt_str_list;
use crate::decode::member_opt_typed_value;
use crate::decode::member_opt_u64;
use crate::decode::member_opt_u64_list;
use crate::decode::member_req_str;
use crate::decode::member_req_u64;
use crate::decode::member_wire;
use crate::decode::str_list;
use crate::decode::get_member;
use crate::json::json_of;
use crate::json::parse_json;
use crate::json::JsonValue;
use vstd::prelude::*;
use vstd::string::StrSliceExecFns;

verus! {

/// One author of the catalog. `key` is its own cross-reference key and is
/// never empty in a materialized record.
#[derive(Clone, Debug, PartialEq)]
pub struct Author {
    pub key: String,
    pub name: String,
    pub type_field: Type,
    pub alternate_names: Option<Vec<String>>,
    pub bio: Option<Bio>,
    pub birth_date: Option<String>,
    pub death_date: Option<String>,
    pub location: Option<Location>,
    pub date: Option<Date>,
    pub entity_type: Option<EntityType>,
    pub fuller_name: Option<FullerName>,
    pub personal_name: Option<String>,
    pub title: Option<String>,
    pub photos: Option<Vec<u64>>,
    pub links: Option<Vec<Link>>,
    pub remote_ids: Option<RemoteIds>,
    pub wikipedia: Option<Wikipedia>,
    pub revision: u64,
    pub latest_revision: Option<u64>,
    pub created: Option<Created>,
    pub last_modified: LastModified,
}

impl Author {
    /// A materialized author always carries its own cross-reference key.
    pub open spec fn wf(&self) -> bool {
        self.key@.len() > 0
    }

    /// Materializes an author from its parsed JSON record: succeeds
    /// exactly when the record is a well-formed author, and then every
    /// field holds exactly what the record's member carries.
    #[verifier::rlimit(100)]
    pub fn from_json(v: &JsonValue) -> (r: Result<Author, DecodeError>)
        ensures
            (r is Ok) == author_wire_wf(*v),
            r matches Ok(a) ==> author_matches(*v, a) && a.wf(),
            r matches Err(e) ==> (e matches DecodeError::UnexpectedFieldShape {
                field: f,
                observed: o,
            } ==> f == AmbiguousField::Bio && (member_of(*v, "bio"@) matches Some(m) && o
                == wire_kind_of(spec_wire_of(m)) && !canonical_wf(spec_wire_of(m)))),
            r == Err::<Author, DecodeError>(DecodeError::MalformedRecord) ==> !author_plain_wf(*v),
            r matches Err(e) ==> !(e is NotJson),
    {
        let key = member_req_str(v, "key")?;
        if key.as_str().unicode_len() == 0 {
            return Err(DecodeError::MalformedRecord);
        }
        let name = member_req_str(v, "name")?;
        let type_key = match member_opt_key(v, "type")? {
            Some(k) => k,
            None => {
                return Err(DecodeError::MalformedRecord);
            },
        };
        let bio = match member_wire(v, "bio") {
            Some(w) => {
                let c = decode_ambiguous(AmbiguousField::Bio, &w)?;
                Some(Bio { type_field: c.kind, value: c.value })
            },
            None => None,
        };
        let location = location_member(v)?;
        let date = match get_member(v, "date") {
            Some(m) => Some(Date { type_field: member_req_str(m, "type")? }),
            None => None,
        };

        let entity_type = entity_type_member(v)?;
        let fuller_name = match get_member(v, "fuller_name") {
            Some(m) => Some(FullerName { type_field: member_req_str(m, "type")? }),
            None => None,
        };
        let links = links_member(v)?;
        let remote_ids = remote_ids_member(v)?;
        let wikipedia = wikipedia_member(v)?;
        let created = match member_opt_typed_value(v, "created")? {
            Some((type_field, value)) => Some(Created { type_field, value }),
            None => None,
        };
        let last_modified = match member_opt_typed_value(v, "last_modified")? {
            Some((type_field, value)) => LastModified { type_field, value },
            None => {
                return Err(DecodeError::MalformedRecord);
            },
        };
        Ok(
            Author {
                key,
                name,
                type_field: Type { key: type_key },
                alternate_names: member_opt_str_list(v, "alternate_names")?,
                bio,
                birth_date: member_opt_str(v, "birth_date")?,
                death_date: member_opt_str(v, "death_date")?,
                location,
                date,
                entity_type,
                fuller_name,
                personal_name: member_opt_str(v, "personal_name")?,
                title: member_opt_str(v, "title")?,
                photos: member_opt_u64_list(v, "photos")?,
                links,
                remote_ids,
                wikipedia,
                revision: member_req_u64(v, "revision")?,
                latest_revision: member_opt_u64(v, "latest_revision")?,
                created,
                last_modified,
            },
        )
    }

    /// Materializes an author from the raw text of its record: the text
    /// must be JSON, and the parsed record a well-formed author; then
    /// every field holds exactly what the record's member carries.
    pub fn from_body(body: &str) -> (r: Result<Author, DecodeError>)
        ensures
            json_of(body@) is None ==> r == Err::<Author, DecodeError>(DecodeError::NotJson),
            json_of(body@) matches Some(j) ==> {
                &&& (r is Ok) == author_wire_wf(j)
                &&& (r matches Ok(a) ==> author_matches(j, a) && a.wf())
                &&& (r matches Err(e) ==> (e matches DecodeError::UnexpectedFieldShape {
                    field: f,
                    observed: o,
                } ==> f == AmbiguousField::Bio && (member_of(j, "bio"@) matches Some(m) && o
                    == wire_kind_of(spec_wire_of(m)) && !canonical_wf(spec_wire_of(m)))))
                &&& (r == Err::<Author, DecodeError>(DecodeError::MalformedRecord)
                    ==> !author_plain_wf(j))
            },
    {
        match parse_json(body) {
            Some(v) => Author::from_json(&v),
            None => Err(DecodeError::NotJson),
        }
    }
}

/// A well-formed entity-kind descriptor: a text type tag with a list of
/// text alternatives.
pub open spec fn entity_type_wf(m: JsonValue) -> bool {
    &&& req_text_wf(m, "type"@)
    &&& member_of(m, "enum"@) matches Some(e) && str_list_wf(e)
}

/// `et` holds exactly the descriptor's tag and alternatives.
pub open spec fn entity_type_matches(m: JsonValue, et: EntityType) -> bool {
    &&& Some(et.type_field) == text_member(m, "type"@)
    &&& member_of(m, "enum"@) matches Some(e) && str_list_matches(e, et.enum_field@)
}

/// A well-formed link: a URL, a typed reference and a title.
pub open spec fn link_wf(m: JsonValue) -> bool {
    &&& req_text_wf(m, "url"@)
    &&& opt_key_of(m, "type"@) is Some
    &&& req_text_wf(m, "title"@)
}

/// `l` holds exactly the members of the link `m`.
pub open spec fn link_matches(m: JsonValue, l: Link) -> bool {
    &&& Some(l.url) == text_member(m, "url"@)
    &&& Some(l.type_field.key) == opt_key_of(m, "type"@)
    &&& Some(l.title) == text_member(m, "title"@)
}

/// A well-formed link list: an array of well-formed links.
pub open spec fn links_list_wf(m: JsonValue) -> bool {
    m matches JsonValue::Array(a) && forall|i: int| 0 <= i < a@.len() ==> link_wf(a@[i])
}

/// `v` holds exactly the links of the array `m`, in order.
pub open spec fn links_list_matches(m: JsonValue, v: Seq<Link>) -> bool {
    m matches JsonValue::Array(a) && v.len() == a@.len() && forall|i: int|
        0 <= i < v.len() ==> link_matches(a@[i], v[i])
}

/// A well-formed remote-identifier object: three text members.
pub open spec fn remote_ids_wf(m: JsonValue) -> bool {
    req_text_wf(m, "viaf"@) && req_text_wf(m, "wikidata"@) && req_text_wf(m, "isni"@)
}

/// `ids` holds exactly the three identifier texts.
pub open spec fn remote_ids_matches(m: JsonValue, ids: RemoteIds) -> bool {
    &&& Some(ids.viaf) == text_member(m, "viaf"@)
    &&& Some(ids.wikidata) == text_member(m, "wikidata"@)
    &&& Some(ids.isni) == text_member(m, "isni"@)
}

/// A well-formed encyclopedia note: two text members.
pub open spec fn wikipedia_wf(m: JsonValue) -> bool {
    req_text_wf(m, "type"@) && req_text_wf(m, "description"@)
}

/// `w` holds exactly the note's tag and description.
pub open spec fn wikipedia_matches(m: JsonValue, w: Wikipedia) -> bool {
    Some(w.type_field) == text_member(m, "type"@) && Some(w.description) == text_member(
        m,
        "description"@,
    )
}

/// A well-formed author record, its ambiguous `bio` member aside.
pub open spec fn author_plain_wf(j: JsonValue) -> bool {
    &&& req_text_wf(j, "key"@)
    &&& text_member(j, "key"@) matches Some(k) && k@.len() > 0
    &&& req_text_wf(j, "name"@)
    &&& opt_key_of(j, "type"@) is Some
    &&& opt_str_list_wf(j, "alternate_names"@)
    &&& opt_text_wf(j, "birth_date"@)
    &&& opt_text_wf(j, "death_date"@)
    &&& (match member_of(j, "location"@) {
        Option::None => true,
        Option::Some(m) => examples_obj_wf(m),
    })
    &&& (match member_of(j, "date"@) {
        Option::None => true,
        Option::Some(m) => req_text_wf(m, "type"@),
    })
    &&& (match member_of(j, "entity_type"@) {
        Option::None => true,
        Option::Some(m) => entity_type_wf(m),
    })
    &&& (match member_of(j, "fuller_name"@) {
        Option::None => true,
        Option::Some(m) => req_text_wf(m, "type"@),
    })
    &&& opt_text_wf(j, "personal_name"@)
    &&& opt_text_wf(j, "title"@)
    &&& (match member_of(j, "photos"@) {
        Option::None => true,
        Option::Some(m) => u64_list_wf(m),
    })
    &&& (match member_of(j, "links"@) {
        Option::None => true,
        Option::Some(m) => links_list_wf(m),
    })
    &&& (match member_of(j, "remote_ids"@) {
        Option::None => true,
        Option::Some(m) => remote_ids_wf(m),
    })
    &&& (match member_of(j, "wikipedia"@) {
        Option::None => true,
        Option::Some(m) => wikipedia_wf(m),
    })
    &&& req_unsigned_wf(j, "revision"@)
    &&& opt_unsigned_wf(j, "latest_revision"@)
    &&& (match member_of(j, "created"@) {
        Option::None => true,
        Option::Some(m) => typed_value_wf(m),
    })
    &&& member_of(j, "last_modified"@) matches Some(m) && typed_value_wf(m)
}

/// The ambiguous `bio` member, where present, decodes into the canonical
/// form.
pub open spec fn author_bio_wf(j: JsonValue) -> bool {
    match member_of(j, "bio"@) {
        Option::None => true,
        Option::Some(m) => canonical_wf(spec_wire_of(m)),
    }
}

/// A well-formed author record, the ambiguous member included.
pub open spec fn author_wire_wf(j: JsonValue) -> bool {
    author_plain_wf(j) && author_bio_wf(j)
}

/// Every field of `a` holds exactly what the record `j`'s member of the
/// same name carries: an absent optional member leaves its field empty,
/// and the ambiguous `bio` member normalizes by the canonical rules.
pub open spec fn author_matches(j: JsonValue, a: Author) -> bool {
    &&& Some(a.key) == text_member(j, "key"@)
    &&& Some(a.name) == text_member(j, "name"@)
    &&& Some(a.type_field.key) == opt_key_of(j, "type"@)
    &&& opt_str_list_matches(j, "alternate_names"@, a.alternate_names)
    &&& (match member_of(j, "bio"@) {
        Option::None => a.bio is None,
        Option::Some(m) => a.bio matches Some(b) && canonical_matches(
            spec_wire_of(m),
            b.type_field@,
            b.value@,
        ),
    })
    &&& a.birth_date == text_member(j, "birth_date"@)
    &&& a.death_date == text_member(j, "death_date"@)
    &&& (match member_of(j, "location"@) {
        Option::None => a.location is None,
        Option::Some(m) => a.location matches Some(l) && examples_obj_matches(
            m,
            l.type_field,
            l.examples@,
        ),
    })
    &&& (match member_of(j, "date"@) {
        Option::None => a.date is None,
        Option::Some(m) => a.date matches Some(d) && Some(d.type_field) == text_member(
            m,
            "type"@,
        ),
    })
    &&& (match member_of(j, "entity_type"@) {
        Option::None => a.entity_type is None,
        Option::Some(m) => a.entity_type matches Some(et) && entity_type_matches(m, et),
    })
    &&& (match member_of(j, "fuller_name"@) {
        Option::None => a.fuller_name is None,
        Option::Some(m) => a.fuller_name matches Some(f) && Some(f.type_field) == text_member(
            m,
            "type"@,
        ),
    })
    &&& a.personal_name == text_member(j, "personal_name"@)
    &&& a.title == text_member(j, "title"@)
    &&& (match member_of(j, "photos"@) {
        Option::None => a.photos is None,
        Option::Some(m) => a.photos matches Some(v) && u64_list_matches(m, v@),
    })
    &&& (match member_of(j, "links"@) {
        Option::None => a.links is None,
        Option::Some(m) => a.links matches Some(v) && links_list_matches(m, v@),
    })
    &&& (match member_of(j, "remote_ids"@) {
        Option::None => a.remote_ids is None,
        Option::Some(m) => a.remote_ids matches Some(ids) && remote_ids_matches(m, ids),
    })
    &&& (match member_of(j, "wikipedia"@) {
        Option::None => a.wikipedia is None,
        Option::Some(m) => a.wikipedia matches Some(w) && wikipedia_matches(m, w),
    })
    &&& Some(a.revision) == unsigned_member(j, "revision"@)
    &&& a.latest_revision == unsigned_member(j, "latest_revision"@)
    &&& (match member_of(j, "created"@) {
        Option::None => a.created is None,
        Option::Some(m) => a.created matches Some(c) && typed_value_matches(
            m,
            c.type_field,
            c.value,
        ),
    })
    &&& member_of(j, "last_modified"@) matches Some(m) && typed_value_matches(
        m,
        a.last_modified.type_field,
        a.last_modified.value,
    )
}

fn location_member(v: &JsonValue) -> (r: Result<Option<Location>, DecodeError>)
    ensures
        match member_of(*v, "location"@) {
            Option::None => r == Ok::<Option<Location>, DecodeError>(None),
            Option::Some(m) => if examples_obj_wf(m) {
                r matches Ok(Some(l)) && examples_obj_matches(m, l.type_field, l.examples@)
            } else {
                r == Err::<Option<Location>, DecodeError>(DecodeError::MalformedRecord)
            },
        },
{
    let m = match get_member(v, "location") {
        None => {
            return Ok(None);
        },
        Some(m) => m,
    };
    let type_field = member_req_str(m, "type")?;
    let examples = match get_member(m, "examples") {
        Some(e) => str_list(e)?,
        None => {
            return Err(DecodeError::MalformedRecord);
        },
    };
    Ok(Some(Location { type_field, examples }))
}

fn entity_type_member(v: &JsonValue) -> (r: Result<Option<EntityType>, DecodeError>)
    ensures
        match member_of(*v, "entity_type"@) {
            Option::None => r == Ok::<Option<EntityType>, DecodeError>(None),
            Option::Some(m) => if entity_type_wf(m) {
                r matches Ok(Some(et)) && entity_type_matches(m, et)
            } else {
                r == Err::<Option<EntityType>, DecodeError>(DecodeError::MalformedRecord)
            },
        },
{
    let m = match get_member(v, "entity_type") {
        None => {
            return Ok(None);
        },
        Some(m) => m,
    };
    let type_field = member_req_str(m, "type")?;
    let enum_field = match get_member(m, "enum") {
        Some(e) => str_list(e)?,
        None => {
            return Err(DecodeError::MalformedRecord);
        },
    };
    Ok(Some(EntityType { type_field, enum_field }))
}

fn links_member(v: &JsonValue) -> (r: Result<Option<Vec<Link>>, DecodeError>)
    ensures
        match member_of(*v, "links"@) {
            Option::None => r == Ok::<Option<Vec<Link>>, DecodeError>(None),
            Option::Some(m) => if links_list_wf(m) {
                r matches Ok(Some(entries)) && links_list_matches(m, entries@)
            } else {
                r == Err::<Option<Vec<Link>>, DecodeError>(DecodeError::MalformedRecord)
            },
        },
{
    let m = match get_member(v, "links") {
        None => {
            return Ok(None);
        },
        Some(m) => m,
    };
    let arr = match m {
        JsonValue::Array(a) => a,
        _ => {
            return Err(DecodeError::MalformedRecord);
        },
    };
    let mut out: Vec<Link> = Vec::new();
    let mut i: usize = 0;
    while i < arr.len()
        invariant
            member_of(*v, "links"@) == Some(*m),
            *m matches JsonValue::Array(a) && a@ == arr@,
            i <= arr@.len(),
            out@.len() == i,
            forall|k: int| 0 <= k < i ==> link_wf(arr@[k]),
            forall|k: int| 0 <= k < i ==> link_matches(arr@[k], out@[k]),
        decreases arr@.len() - i,
    {
        let entry = &arr[i];
        let type_key = match member_opt_key(entry, "type") {
            Ok(Some(k)) => k,
            Ok(None) => {
                proof {
                    assert(!link_wf(arr@[i as int]));
                }
                return Err(DecodeError::MalformedRecord);
            },
            Err(e) => {
                proof {
                    assert(!link_wf(arr@[i as int]));
                }
                return Err(e);
            },
        };
        let url = match member_req_str(entry, "url") {
            Ok(x) => x,
            Err(e) => {
                proof {
                    assert(!link_wf(arr@[i as int]));
                }
                return Err(e);
            },
        };
        let title = match member_req_str(entry, "title") {
            Ok(x) => x,
            Err(e) => {
                proof {
                    assert(!link_wf(arr@[i as int]));
                }
                return Err(e);
            },
        };
        out.push(Link { url, type_field: Type { key: type_key }, title });
        i = i + 1;
    }
    Ok(Some(out))
}

fn remote_ids_member(v: &JsonValue) -> (r: Result<Option<RemoteIds>, DecodeError>)
    ensures
        match member_of(*v, "remote_ids"@) {
            Option::None => r == Ok::<Option<RemoteIds>, DecodeError>(None),
            Option::Some(m) => if remote_ids_wf(m) {
                r matches Ok(Some(ids)) && remote_ids_matches(m, ids)
            } else {
                r == Err::<Option<RemoteIds>, DecodeError>(DecodeError::MalformedRecord)
            },
        },
{
    let m = match get_member(v, "remote_ids") {
        None => {
            return Ok(None);
        },
        Some(m) => m,
    };
    Ok(
        Some(
            RemoteIds {
                viaf: member_req_str(m, "viaf")?,
                wikidata: member_req_str(m, "wikidata")?,
                isni: member_req_str(m, "isni")?,
            },
        ),
    )
}

fn wikipedia_member(v: &JsonValue) -> (r: Result<Option<Wikipedia>, DecodeError>)
    ensures
        match member_of(*v, "wikipedia"@) {
            Option::None => r == Ok::<Option<Wikipedia>, DecodeError>(None),
            Option::Some(m) => if wikipedia_wf(m) {
                r matches Ok(Some(w)) && wikipedia_matches(m, w)
            } else {
                r == Err::<Option<Wikipedia>, DecodeError>(DecodeError::MalformedRecord)
            },
        },
{
    let m = match get_member(v, "wikipedia") {
        None => {
            return Ok(None);
        },
        Some(m) => m,
    };
    Ok(
        Some(
            Wikipedia {
                type_field: member_req_str(m, "type")?,
                description: member_req_str(m, "description")?,
            },
        ),
    )
}

/// A typed reference: the catalog wraps record type tags as
/// `{"key": "/type/..."}`.
#[derive(Debug, PartialEq)]
pub struct Type {
    pub key: String,
}

impl Clone for Type {
    fn clone(&self) -> (r: Self)
        ensures
            r == *self,
    {
        Type { key: self.key.clone() }
    }
}

/// The canonical shape of an author's `bio` field.
#[derive(Debug, PartialEq)]
pub struct Bio {
    pub type_field: String,
    pub value: String,
}

impl Clone for Bio {
    fn clone(&self) -> (r: Self)
        ensures
            r == *self,
    {
        Bio { type_field: self.type_field.clone(), value: self.value.clone() }
    }
}

/// The two wire shapes an author's `bio` field can legitimately take:
/// bare text, or an already structured `{type, value}` object.
#[derive(Clone, Debug, PartialEq)]
pub enum BioEnum {
    BioString(String),
    BioType(Bio),
}

impl BioEnum {
    /// Collapses either wire shape into the canonical `{kind, value}`
    /// form: bare text is wrapped under the default kind `"text"`, a
    /// structured value is already canonical and is kept exactly.
    pub fn normalize(&self) -> (r: Bio)
        ensures
            match *self {
                BioEnum::BioString(ref s) => r.type_field@ == "text"@ && r.value@ == s@,
                BioEnum::BioType(ref b) => r == *b,
            },
    {
        match self {
            BioEnum::BioString(s) => Bio { type_field: "text".to_owned(), value: s.clone() },
            BioEnum::BioType(b) => b.clone(),
        }
    }
}

/// A location note: the catalog's type tag with its example values.
#[derive(Clone, Debug, PartialEq)]
pub struct Location {
    pub type_field: String,
    pub examples: Vec<String>,
}

/// The catalog's schema descriptor for a date member.
#[derive(Clone, Debug, PartialEq)]
pub struct Date {
    pub type_field: String,
}

/// The catalog's entity-kind descriptor: a person or an organization.
#[derive(Clone, Debug, PartialEq)]
pub struct EntityType {
    pub type_field: String,
    pub enum_field: Vec<String>,
}

/// The catalog's schema descriptor for a fuller-name member.
#[derive(Clone, Debug, PartialEq)]
pub struct FullerName {
    pub type_field: String,
}

/// The catalog's schema descriptor for a title member.
#[derive(Clone, Debug, PartialEq)]
pub struct Title {
    pub type_field: String,
}

/// An external link attached to an author.
#[derive(Clone, Debug, PartialEq)]
pub struct Link {
    pub url: String,
    pub type_field: Type,
    pub title: String,
}

/// Cross-references to the author's identifiers on other services; the
/// identifier strings are opaque here, never validated.
#[derive(Clone, Debug, PartialEq)]
pub struct RemoteIds {
    pub viaf: String,
    pub wikidata: String,
    pub isni: String,
}

/// An encyclopedia note attached to an author.
#[derive(Clone, Debug, PartialEq)]
pub struct Wikipedia {
    pub type_field: String,
    pub description: String,
}

/// The creation stamp of a record.
#[derive(Debug, PartialEq)]
pub struct Created {
    pub type_field: String,
    pub value: String,
}

impl Clone for Created {
    fn clone(&self) -> (r: Self)
        ensures
            r == *self,
    {
        Created { type_field: self.type_field.clone(), value: self.value.clone() }
    }
}

/// The last-modification stamp of a record.
#[derive(Debug, PartialEq)]
pub struct LastModified {
    pub type_field: String,
    pub value: String,
}

impl Clone for LastModified {
    fn clone(&self) -> (r: Self)
        ensures
            r == *self,
    {
        LastModified { type_field: self.type_field.clone(), value: self.value.clone() }
    }
}

} // verus!
