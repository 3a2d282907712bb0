//! The edition record: one physical, ISBN-addressable publication, with
//! its cross-reference keys into the works that it realizes.

use crate::ambiguous::canonical_matches;
use crate::ambiguous::canonical_wf;
use crate::ambiguous::decode_ambiguous;
use crate::ambiguous::wire_kind_of;
use crate::ambiguous::AmbiguousField;
use crate::ambiguous::DecodeError;
use crate::decode::i64_list_matches;
use crate::decode::i64_list_wf;
use crate::decode::key_list_matches;
use crate::decode::key_list_wf;
use crate::decode::key_of;
use crate::decode::member_of;
use crate::decode::opt_key_of;
use crate::decode::opt_str_list_matches;
use crate::decode::opt_str_list_wf;
use crate::decode::opt_text_wf;
use crate::decode::opt_unsigned_wf;
use crate::decode::req_text_wf;
use crate::decode::req_unsigned_wf;
use crate::decode::spec_wire_of;
use crate::decode::text_member;
use crate::decode::typed_value_matches;
use crate::decode::typed_value_wf;
use crate::decode::unsigned_member;
use crate::decode::member_opt_i64_list;
use crate::decode::member_opt_key;
use crate::decode::member_opt_key_list;
use crate::decode::member_opt_str;
use crate::decode::member_opt_str_list;
use crate::decode::member_opt_typed_value;
use crate::decode::member_opt_u64;
use crate::decode::member_req_str;
use crate::decode::member_req_u64;
use crate::decode::member_wire;
use crate::decode::str_list;
use crate::decode::examples_obj_matches;
use crate::decode::examples_obj_wf;
use crate::decode::get_member;
use crate::json::json_of;
use crate::json::parse_json;
use crate::json::JsonValue;
use vstd::prelude::*;
use vstd::string::StrSliceExecFns;

verus! {

/// One edition of the catalog. `key` is its own cross-reference key and is
/// never empty in a materialized record; `works` lists the cross-reference
/// keys of the works this edition realizes, in server order.
#[derive(Clone, Debug, PartialEq)]
pub struct Edition {
    pub key: String,
    pub title: String,
    pub full_title: Option<String>,
    pub subtitle: Option<String>,
    pub type_field: Type,
    pub authors: Option<Vec<Authors>>,
    pub works: Vec<Works>,
    pub identifiers: Option<Identifiers>,
    pub isbn10: Option<Vec<String>>,
    pub isbn13: Option<Vec<String>>,
    pub lccn: Option<Vec<String>>,
    pub ocaid: Option<String>,
    pub oclc_numbers: Option<Vec<String>>,
    pub covers: Option<Vec<i64>>,
    pub links: Option<String>,
    pub languages: Option<Vec<Language>>,
    pub by_statement: Option<String>,
    pub weight: Option<Weight>,
    pub edition_name: Option<String>,
    pub number_of_pages: Option<u64>,
    pub pagination: Option<String>,
    pub physical_dimensions: Option<PhysicalDimensions>,
    pub physical_format: Option<String>,
    pub publish_country: Option<String>,
    pub publish_date: Option<String>,
    pub publish_places: Option<Vec<String>>,
    pub publishers: Option<Vec<String>>,
    pub contributions: Option<Vec<String>>,
    pub dewey_decimal_class: Option<Vec<String>>,
    pub genres: Option<Vec<String>>,
    pub lc_classifications: Option<Vec<String>>,
    pub other_titles: Option<Vec<String>>,
    pub series: Option<Vec<String>>,
    pub source_records: Option<Vec<String>>,
    pub subjects: Option<Vec<String>>,
    pub work_titles: Option<String>,
    pub table_of_contents: Option<Vec<TableOfContents>>,
    pub description: Option<String>,
    pub first_sentence: Option<String>,
    pub notes: Option<Notes>,
    pub revision: u64,
    pub latest_revision: Option<u64>,
    pub created: Created,
    pub last_modified: LastModified,
    pub isbn_invalid: Option<Vec<String>>,
    pub ia_box_id: Option<Vec<String>>,
}

impl Edition {
    /// A materialized edition always carries its own cross-reference key.
    pub open spec fn wf(&self) -> bool {
        self.key@.len() > 0
    }

    /// The author references of this edition; the record must carry some.
    pub fn get_author(&self) -> (r: Vec<Authors>)
        requires
            self.authors is Some,
        ensures
            r@ == self.authors->0@,
    {
        let a = self.authors.as_ref().unwrap();
        let r = a.clone();
        proof {
            assert forall|i: int| 0 <= i < r@.len() implies r@[i] == a@[i] by {
                assert(cloned(a@[i], r@[i]));
            }
            assert(r@ =~= a@);
        }
        r
    }

    /// The cross-reference keys of this edition's works, in server order.
    pub fn get_works_ids(&self) -> (r: Vec<String>)
        ensures
            r@.len() == self.works@.len(),
            forall|i: int| 0 <= i < r@.len() ==> r@[i]@ == self.works@[i].key@,
    {
        let mut work_ids: Vec<String> = Vec::new();
        let mut i: usize = 0;
        while i < self.works.len()
            invariant
                i <= self.works@.len(),
                work_ids@.len() == i,
                forall|j: int| 0 <= j < i ==> work_ids@[j]@ == self.works@[j].key@,
            decreases self.works@.len() - i,
        {
            work_ids.push(self.works[i].key.clone());
            i = i + 1;
        }
        work_ids
    }

    /// Materializes an edition from its parsed JSON record: succeeds
    /// exactly when the record is a well-formed edition, and then every
    /// field holds exactly what the record's member carries.
    #[verifier::rlimit(100)]
    pub fn from_json(v: &JsonValue) -> (r: Result<Edition, DecodeError>)
        ensures
            (r is Ok) == edition_wire_wf(*v),
            r matches Ok(e) ==> edition_matches(*v, e) && e.wf(),
            r matches Err(e) ==> (e matches DecodeError::UnexpectedFieldShape {
                field: f,
                observed: o,
            } ==> f == AmbiguousField::Notes && (member_of(*v, "notes"@) matches Some(m) && o
                == wire_kind_of(spec_wire_of(m)) && !canonical_wf(spec_wire_of(m)))),
            r == Err::<Edition, DecodeError>(DecodeError::MalformedRecord) ==> !edition_plain_wf(
                *v,
            ),
            r matches Err(e) ==> !(e is NotJson),
    {
        let key = member_req_str(v, "key")?;
        if key.as_str().unicode_len() == 0 {
            return Err(DecodeError::MalformedRecord);
        }
        let title = member_req_str(v, "title")?;
        let type_key = match member_opt_key(v, "type")? {
            Some(k) => k,
            None => {
                return Err(DecodeError::MalformedRecord);
            },
        };
        let authors = match member_opt_key_list(v, "authors")? {
            Some(keys) => {
                let ghost gkeys = keys@;
                let list = authors_from_keys(keys);
                proof {
                    lemma_authors_list_matches(member_of(*v, "authors"@)->0, gkeys, list@);
                }
                Some(list)
            },
            None => None,
        };
        let works = match member_opt_key_list(v, "works")? {
            Some(keys) => {
                let ghost gkeys = keys@;
                let list = works_from_keys(keys);
                proof {
                    lemma_works_list_matches(member_of(*v, "works"@)->0, gkeys, list@);
                }
                list
            },
            None => {
                return Err(DecodeError::MalformedRecord);
            },
        };
        let identifiers = identifiers_member(v)?;
        let languages = match member_opt_key_list(v, "languages")? {
            Some(keys) => {
                let ghost gkeys = keys@;
                let list = languages_from_keys(keys);
                proof {
                    lemma_languages_list_matches(member_of(*v, "languages"@)->0, gkeys, list@);
                }
                Some(list)
            },
            None => None,
        };
        let weight = weight_member(v)?;
        let physical_dimensions = physical_dimensions_member(v)?;
        let table_of_contents = table_of_contents_member(v)?;
        let notes = match member_wire(v, "notes") {
            Some(w) => {
                let c = decode_ambiguous(AmbiguousField::Notes, &w)?;
                Some(Notes { type_field: c.kind, value: c.value })
            },
            None => None,
        };
        let created = match member_opt_typed_value(v, "created")? {
            Some((type_field, value)) => Created { type_field, value },
            None => {
                return Err(DecodeError::MalformedRecord);
            },
        };
        let last_modified = match member_opt_typed_value(v, "last_modified")? {
            Some((type_field, value)) => LastModified { type_field, value },
            None => {
                return Err(DecodeError::MalformedRecord);
            },
        };
        Ok(
            Edition {
                key,
                title,
                full_title: member_opt_str(v, "full_title")?,
                subtitle: member_opt_str(v, "subtitle")?,
                type_field: Type { key: type_key },
                authors,
                works,
                identifiers,
                isbn10: member_opt_str_list(v, "isbn_10")?,
                isbn13: member_opt_str_list(v, "isbn_13")?,
                lccn: member_opt_str_list(v, "lccn")?,
                ocaid: member_opt_str(v, "ocaid")?,
                oclc_numbers: member_opt_str_list(v, "oclc_numbers")?,
                covers: member_opt_i64_list(v, "covers")?,
                links: member_opt_str(v, "links")?,
                languages,
                by_statement: member_opt_str(v, "by_statement")?,
                weight,
                edition_name: member_opt_str(v, "edition_name")?,
                number_of_pages: member_opt_u64(v, "number_of_pages")?,
                pagination: member_opt_str(v, "pagination")?,
                physical_dimensions,
                physical_format: member_opt_str(v, "physical_format")?,
                publish_country: member_opt_str(v, "publish_country")?,
                publish_date: member_opt_str(v, "publish_date")?,
                publish_places: member_opt_str_list(v, "publish_places")?,
                publishers: member_opt_str_list(v, "publishers")?,
                contributions: member_opt_str_list(v, "contributions")?,
                dewey_decimal_class: member_opt_str_list(v, "dewey_decimal_class")?,
                genres: member_opt_str_list(v, "genres")?,
                lc_classifications: member_opt_str_list(v, "lc_classifications")?,
                other_titles: member_opt_str_list(v, "other_titles")?,
                series: member_opt_str_list(v, "series")?,
                source_records: member_opt_str_list(v, "source_records")?,
                subjects: member_opt_str_list(v, "subjects")?,
                work_titles: member_opt_str(v, "work_titles")?,
                table_of_contents,
                description: member_opt_str(v, "description")?,
                first_sentence: member_opt_str(v, "first_sentence")?,
                notes,
                revision: member_req_u64(v, "revision")?,
                latest_revision: member_opt_u64(v, "latest_revision")?,
                created,
                last_modified,
                isbn_invalid: member_opt_str_list(v, "isbn_invalid")?,
                ia_box_id: member_opt_str_list(v, "ia_box_id")?,
            },
        )
    }

    /// Materializes an edition from the raw text of its record: the text
    /// must be JSON, and the parsed record a well-formed edition; then
    /// every field holds exactly what the record's member carries.
    pub fn from_body(body: &str) -> (r: Result<Edition, DecodeError>)
        ensures
            json_of(body@) is None ==> r == Err::<Edition, DecodeError>(DecodeError::NotJson),
            json_of(body@) matches Some(j) ==> {
                &&& (r is Ok) == edition_wire_wf(j)
                &&& (r matches Ok(e) ==> edition_matches(j, e) && e.wf())
                &&& (r matches Err(e) ==> (e matches DecodeError::UnexpectedFieldShape {
                    field: f,
                    observed: o,
                } ==> f == AmbiguousField::Notes && (member_of(j, "notes"@) matches Some(m) && o
                    == wire_kind_of(spec_wire_of(m)) && !canonical_wf(spec_wire_of(m)))))
                &&& (r == Err::<Edition, DecodeError>(DecodeError::MalformedRecord)
                    ==> !edition_plain_wf(j))
            },
    {
        match parse_json(body) {
            Some(v) => Edition::from_json(&v),
            None => Err(DecodeError::NotJson),
        }
    }
}

/// A well-formed table-of-contents entry: a typed reference, a level, a
/// title, and optional label and page number.
pub open spec fn toc_entry_wf(m: JsonValue) -> bool {
    &&& opt_key_of(m, "type"@) is Some
    &&& req_unsigned_wf(m, "level"@)
    &&& opt_text_wf(m, "label"@)
    &&& req_text_wf(m, "title"@)
    &&& opt_text_wf(m, "pagenum"@)
}

/// `t` holds exactly the members of the table-of-contents entry `m`.
pub open spec fn toc_entry_matches(m: JsonValue, t: TableOfContents) -> bool {
    &&& Some(t.type_field.key) == opt_key_of(m, "type"@)
    &&& Some(t.level) == unsigned_member(m, "level"@)
    &&& t.label == text_member(m, "label"@)
    &&& Some(t.title) == text_member(m, "title"@)
    &&& t.pagenum == text_member(m, "pagenum"@)
}

/// A well-formed table of contents: an array of well-formed entries.
pub open spec fn toc_list_wf(m: JsonValue) -> bool {
    m matches JsonValue::Array(a) && forall|i: int| 0 <= i < a@.len() ==> toc_entry_wf(a@[i])
}

/// `v` holds exactly the entries of the table of contents `m`, in order.
pub open spec fn toc_list_matches(m: JsonValue, v: Seq<TableOfContents>) -> bool {
    m matches JsonValue::Array(a) && v.len() == a@.len() && forall|i: int|
        0 <= i < v.len() ==> toc_entry_matches(a@[i], v[i])
}

/// `v` holds exactly the `key` texts of the author-reference array `m`,
/// in order.
pub open spec fn authors_list_matches(m: JsonValue, v: Seq<Authors>) -> bool {
    m matches JsonValue::Array(a) && v.len() == a@.len() && forall|i: int|
        0 <= i < v.len() ==> Some(v[i].key) == key_of(a@[i])
}

/// `v` holds exactly the `key` texts of the work-reference array `m`, in
/// order.
pub open spec fn works_list_matches(m: JsonValue, v: Seq<Works>) -> bool {
    m matches JsonValue::Array(a) && v.len() == a@.len() && forall|i: int|
        0 <= i < v.len() ==> Some(v[i].key) == key_of(a@[i])
}

/// `v` holds exactly the `key` texts of the language-reference array `m`,
/// in order.
pub open spec fn languages_list_matches(m: JsonValue, v: Seq<Language>) -> bool {
    m matches JsonValue::Array(a) && v.len() == a@.len() && forall|i: int|
        0 <= i < v.len() ==> Some(v[i].key) == key_of(a@[i])
}

proof fn lemma_authors_list_matches(m: JsonValue, keys: Seq<String>, v: Seq<Authors>)
    requires
        key_list_matches(m, keys),
        v.len() == keys.len(),
        forall|i: int| 0 <= i < v.len() ==> v[i].key == keys[i],
    ensures
        authors_list_matches(m, v),
{
    let a = m->Array_0;
    assert forall|i: int| 0 <= i < v.len() implies Some(v[i].key) == key_of(a@[i]) by {
        assert(Some(keys[i]) == key_of(a@[i]));
        assert(v[i].key == keys[i]);
    }
}

proof fn lemma_works_list_matches(m: JsonValue, keys: Seq<String>, v: Seq<Works>)
    requires
        key_list_matches(m, keys),
        v.len() == keys.len(),
        forall|i: int| 0 <= i < v.len() ==> v[i].key == keys[i],
    ensures
        works_list_matches(m, v),
{
    let a = m->Array_0;
    assert forall|i: int| 0 <= i < v.len() implies Some(v[i].key) == key_of(a@[i]) by {
        assert(Some(keys[i]) == key_of(a@[i]));
        assert(v[i].key == keys[i]);
    }
}

proof fn lemma_languages_list_matches(m: JsonValue, keys: Seq<String>, v: Seq<Language>)
    requires
        key_list_matches(m, keys),
        v.len() == keys.len(),
        forall|i: int| 0 <= i < v.len() ==> v[i].key == keys[i],
    ensures
        languages_list_matches(m, v),
{
    let a = m->Array_0;
    assert forall|i: int| 0 <= i < v.len() implies Some(v[i].key) == key_of(a@[i]) by {
        assert(Some(keys[i]) == key_of(a@[i]));
        assert(v[i].key == keys[i]);
    }
}

/// A well-formed edition record, its ambiguous `notes` member aside: the
/// required members (its own key, non-empty; title; type; work list;
/// revision; the two stamps) are present with the right types, and every
/// optional member it does carry has the right type.
pub open spec fn edition_plain_wf(j: JsonValue) -> bool {
    &&& req_text_wf(j, "key"@)
    &&& text_member(j, "key"@) matches Some(k) && k@.len() > 0
    &&& req_text_wf(j, "title"@)
    &&& opt_text_wf(j, "full_title"@)
    &&& opt_text_wf(j, "subtitle"@)
    &&& opt_key_of(j, "type"@) is Some
    &&& (match member_of(j, "authors"@) {
        Option::None => true,
        Option::Some(m) => key_list_wf(m),
    })
    &&& member_of(j, "works"@) matches Some(m) && key_list_wf(m)
    &&& (match member_of(j, "identifiers"@) {
        Option::None => true,
        Option::Some(m) => opt_str_list_wf(m, "librarything"@) && opt_str_list_wf(
            m,
            "goodreads"@,
        ),
    })
    &&& opt_str_list_wf(j, "isbn_10"@)
    &&& opt_str_list_wf(j, "isbn_13"@)
    &&& opt_str_list_wf(j, "lccn"@)
    &&& opt_text_wf(j, "ocaid"@)
    &&& opt_str_list_wf(j, "oclc_numbers"@)
    &&& (match member_of(j, "covers"@) {
        Option::None => true,
        Option::Some(m) => i64_list_wf(m),
    })
    &&& opt_text_wf(j, "links"@)
    &&& (match member_of(j, "languages"@) {
        Option::None => true,
        Option::Some(m) => key_list_wf(m),
    })
    &&& opt_text_wf(j, "by_statement"@)
    &&& (match member_of(j, "weight"@) {
        Option::None => true,
        Option::Some(m) => examples_obj_wf(m),
    })
    &&& opt_text_wf(j, "edition_name"@)
    &&& opt_unsigned_wf(j, "number_of_pages"@)
    &&& opt_text_wf(j, "pagination"@)
    &&& (match member_of(j, "physical_dimensions"@) {
        Option::None => true,
        Option::Some(m) => examples_obj_wf(m),
    })
    &&& opt_text_wf(j, "physical_format"@)
    &&& opt_text_wf(j, "publish_country"@)
    &&& opt_text_wf(j, "publish_date"@)
    &&& opt_str_list_wf(j, "publish_places"@)
    &&& opt_str_list_wf(j, "publishers"@)
    &&& opt_str_list_wf(j, "contributions"@)
    &&& opt_str_list_wf(j, "dewey_decimal_class"@)
    &&& opt_str_list_wf(j, "genres"@)
    &&& opt_str_list_wf(j, "lc_classifications"@)
    &&& opt_str_list_wf(j, "other_titles"@)
    &&& opt_str_list_wf(j, "series"@)
    &&& opt_str_list_wf(j, "source_records"@)
    &&& opt_str_list_wf(j, "subjects"@)
    &&& opt_text_wf(j, "work_titles"@)
    &&& (match member_of(j, "table_of_contents"@) {
        Option::None => true,
        Option::Some(m) => toc_list_wf(m),
    })
    &&& opt_text_wf(j, "description"@)
    &&& opt_text_wf(j, "first_sentence"@)
    &&& req_unsigned_wf(j, "revision"@)
    &&& opt_unsigned_wf(j, "latest_revision"@)
    &&& member_of(j, "created"@) matches Some(m) && typed_value_wf(m)
    &&& member_of(j, "last_modified"@) matches Some(m) && typed_value_wf(m)
    &&& opt_str_list_wf(j, "isbn_invalid"@)
    &&& opt_str_list_wf(j, "ia_box_id"@)
}

/// The ambiguous `notes` member, where present, decodes into the
/// canonical form.
pub open spec fn edition_notes_wf(j: JsonValue) -> bool {
    match member_of(j, "notes"@) {
        Option::None => true,
        Option::Some(m) => canonical_wf(spec_wire_of(m)),
    }
}

/// A well-formed edition record, the ambiguous member included.
pub open spec fn edition_wire_wf(j: JsonValue) -> bool {
    edition_plain_wf(j) && edition_notes_wf(j)
}

/// Every field of `e` holds exactly what the record `j`'s member of the
/// same name carries: an absent optional member leaves its field empty,
/// and the ambiguous `notes` member normalizes by the canonical rules.
pub open spec fn edition_matches(j: JsonValue, e: Edition) -> bool {
    &&& Some(e.key) == text_member(j, "key"@)
    &&& Some(e.title) == text_member(j, "title"@)
    &&& e.full_title == text_member(j, "full_title"@)
    &&& e.subtitle == text_member(j, "subtitle"@)
    &&& Some(e.type_field.key) == opt_key_of(j, "type"@)
    &&& (match member_of(j, "authors"@) {
        Option::None => e.authors is None,
        Option::Some(m) => e.authors matches Some(v) && authors_list_matches(m, v@),
    })
    &&& member_of(j, "works"@) matches Some(m) && works_list_matches(m, e.works@)
    &&& (match member_of(j, "identifiers"@) {
        Option::None => e.identifiers is None,
        Option::Some(m) => e.identifiers matches Some(ids) && opt_str_list_matches(
            m,
            "librarything"@,
            ids.librarything,
        ) && opt_str_list_matches(m, "goodreads"@, ids.goodreads),
    })
    &&& opt_str_list_matches(j, "isbn_10"@, e.isbn10)
    &&& opt_str_list_matches(j, "isbn_13"@, e.isbn13)
    &&& opt_str_list_matches(j, "lccn"@, e.lccn)
    &&& e.ocaid == text_member(j, "ocaid"@)
    &&& opt_str_list_matches(j, "oclc_numbers"@, e.oclc_numbers)
    &&& (match member_of(j, "covers"@) {
        Option::None => e.covers is None,
        Option::Some(m) => e.covers matches Some(v) && i64_list_matches(m, v@),
    })
    &&& e.links == text_member(j, "links"@)
    &&& (match member_of(j, "languages"@) {
        Option::None => e.languages is None,
        Option::Some(m) => e.languages matches Some(v) && languages_list_matches(m, v@),
    })
    &&& e.by_statement == text_member(j, "by_statement"@)
    &&& (match member_of(j, "weight"@) {
        Option::None => e.weight is None,
        Option::Some(m) => e.weight matches Some(w) && examples_obj_matches(
            m,
            w.type_field,
            w.examples@,
        ),
    })
    &&& e.edition_name == text_member(j, "edition_name"@)
    &&& e.number_of_pages == unsigned_member(j, "number_of_pages"@)
    &&& e.pagination == text_member(j, "pagination"@)
    &&& (match member_of(j, "physical_dimensions"@) {
        Option::None => e.physical_dimensions is None,
        Option::Some(m) => e.physical_dimensions matches Some(w) && examples_obj_matches(
            m,
            w.type_field,
            w.examples@,
        ),
    })
    &&& e.physical_format == text_member(j, "physical_format"@)
    &&& e.publish_country == text_member(j, "publish_country"@)
    &&& e.publish_date == text_member(j, "publish_date"@)
    &&& opt_str_list_matches(j, "publish_places"@, e.publish_places)
    &&& opt_str_list_matches(j, "publishers"@, e.publishers)
    &&& opt_str_list_matches(j, "contributions"@, e.contributions)
    &&& opt_str_list_matches(j, "dewey_decimal_class"@, e.dewey_decimal_class)
    &&& opt_str_list_matches(j, "genres"@, e.genres)
    &&& opt_str_list_matches(j, "lc_classifications"@, e.lc_classifications)
    &&& opt_str_list_matches(j, "other_titles"@, e.other_titles)
    &&& opt_str_list_matches(j, "series"@, e.series)
    &&& opt_str_list_matches(j, "source_records"@, e.source_records)
    &&& opt_str_list_matches(j, "subjects"@, e.subjects)
    &&& e.work_titles == text_member(j, "work_titles"@)
    &&& (match member_of(j, "table_of_contents"@) {
        Option::None => e.table_of_contents is None,
        Option::Some(m) => e.table_of_contents matches Some(v) && toc_list_matches(m, v@),
    })
    &&& e.description == text_member(j, "description"@)
    &&& e.first_sentence == text_member(j, "first_sentence"@)
    &&& (match member_of(j, "notes"@) {
        Option::None => e.notes is None,
        Option::Some(m) => e.notes matches Some(n) && canonical_matches(
            spec_wire_of(m),
            n.type_field@,
            n.value@,
        ),
    })
    &&& Some(e.revision) == unsigned_member(j, "revision"@)
    &&& e.latest_revision == unsigned_member(j, "latest_revision"@)
    &&& member_of(j, "created"@) matches Some(m) && typed_value_matches(
        m,
        e.created.type_field,
        e.created.value,
    )
    &&& member_of(j, "last_modified"@) matches Some(m) && typed_value_matches(
        m,
        e.last_modified.type_field,
        e.last_modified.value,
    )
    &&& opt_str_list_matches(j, "isbn_invalid"@, e.isbn_invalid)
    &&& opt_str_list_matches(j, "ia_box_id"@, e.ia_box_id)
}

fn authors_from_keys(keys: Vec<String>) -> (r: Vec<Authors>)
    ensures
        r@.len() == keys@.len(),
        forall|i: int| 0 <= i < r@.len() ==> r@[i].key == keys@[i],
{
    let mut out: Vec<Authors> = Vec::new();
    let mut i: usize = 0;
    while i < keys.len()
        invariant
            i <= keys@.len(),
            out@.len() == i,
            forall|j: int| 0 <= j < i ==> out@[j].key == keys@[j],
        decreases keys@.len() - i,
    {
        out.push(Authors { key: keys[i].clone() });
        i = i + 1;
    }
    out
}

fn works_from_keys(keys: Vec<String>) -> (r: Vec<Works>)
    ensures
        r@.len() == keys@.len(),
        forall|i: int| 0 <= i < r@.len() ==> r@[i].key == keys@[i],
{
    let mut out: Vec<Works> = Vec::new();
    let mut i: usize = 0;
    while i < keys.len()
        invariant
            i <= keys@.len(),
            out@.len() == i,
            forall|j: int| 0 <= j < i ==> out@[j].key == keys@[j],
        decreases keys@.len() - i,
    {
        out.push(Works { key: keys[i].clone() });
        i = i + 1;
    }
    out
}

fn languages_from_keys(keys: Vec<String>) -> (r: Vec<Language>)
    ensures
        r@.len() == keys@.len(),
        forall|i: int| 0 <= i < r@.len() ==> r@[i].key == keys@[i],
{
    let mut out: Vec<Language> = Vec::new();
    let mut i: usize = 0;
    while i < keys.len()
        invariant
            i <= keys@.len(),
            out@.len() == i,
            forall|j: int| 0 <= j < i ==> out@[j].key == keys@[j],
        decreases keys@.len() - i,
    {
        out.push(Language { key: keys[i].clone() });
        i = i + 1;
    }
    out
}

fn identifiers_member(v: &JsonValue) -> (r: Result<Option<Identifiers>, DecodeError>)
    ensures
        match member_of(*v, "identifiers"@) {
            Option::None => r == Ok::<Option<Identifiers>, DecodeError>(None),
            Option::Some(m) => if opt_str_list_wf(m, "librarything"@) && opt_str_list_wf(
                m,
                "goodreads"@,
            ) {
                r matches Ok(Some(ids)) && opt_str_list_matches(
                    m,
                    "librarything"@,
                    ids.librarything,
                ) && opt_str_list_matches(m, "goodreads"@, ids.goodreads)
            } else {
                r == Err::<Option<Identifiers>, DecodeError>(DecodeError::MalformedRecord)
            },
        },
{
    let m = match get_member(v, "identifiers") {
        None => {
            return Ok(None);
        },
        Some(m) => m,
    };
    Ok(
        Some(
            Identifiers {
                librarything: member_opt_str_list(m, "librarything")?,
                goodreads: member_opt_str_list(m, "goodreads")?,
            },
        ),
    )
}

fn weight_member(v: &JsonValue) -> (r: Result<Option<Weight>, DecodeError>)
    ensures
        match member_of(*v, "weight"@) {
            Option::None => r == Ok::<Option<Weight>, DecodeError>(None),
            Option::Some(m) => if examples_obj_wf(m) {
                r matches Ok(Some(w)) && examples_obj_matches(m, w.type_field, w.examples@)
            } else {
                r == Err::<Option<Weight>, DecodeError>(DecodeError::MalformedRecord)
            },
        },
{
    let m = match get_member(v, "weight") {
        None => {
            return Ok(None);
        },
        Some(m) => m,
    };
    let type_field = member_req_str(m, "type")?;
    let examples = match get_member(m, "examples") {
        Some(e) => str_list(e)?,
        None => {
            return Err(DecodeError::MalformedRecord);
        },
    };
    Ok(Some(Weight { type_field, examples }))
}

fn physical_dimensions_member(v: &JsonValue) -> (r: Result<
    Option<PhysicalDimensions>,
    DecodeError,
>)
    ensures
        match member_of(*v, "physical_dimensions"@) {
            Option::None => r == Ok::<Option<PhysicalDimensions>, DecodeError>(None),
            Option::Some(m) => if examples_obj_wf(m) {
                r matches Ok(Some(w)) && examples_obj_matches(m, w.type_field, w.examples@)
            } else {
                r == Err::<Option<PhysicalDimensions>, DecodeError>(DecodeError::MalformedRecord)
            },
        },
{
    let m = match get_member(v, "physical_dimensions") {
        None => {
            return Ok(None);
        },
        Some(m) => m,
    };
    let type_field = member_req_str(m, "type")?;
    let examples = match get_member(m, "examples") {
        Some(e) => str_list(e)?,
        None => {
            return Err(DecodeError::MalformedRecord);
        },
    };
    Ok(Some(PhysicalDimensions { type_field, examples }))
}

fn table_of_contents_member(v: &JsonValue) -> (r: Result<
    Option<Vec<TableOfContents>>,
    DecodeError,
>)
    ensures
        match member_of(*v, "table_of_contents"@) {
            Option::None => r == Ok::<Option<Vec<TableOfContents>>, DecodeError>(None),
            Option::Some(m) => if toc_list_wf(m) {
                r matches Ok(Some(entries)) && toc_list_matches(m, entries@)
            } else {
                r == Err::<Option<Vec<TableOfContents>>, DecodeError>(DecodeError::MalformedRecord)
            },
        },
{
    let m = match get_member(v, "table_of_contents") {
        None => {
            return Ok(None);
        },
        Some(m) => m,
    };
    let arr = match m {
        JsonValue::Array(a) => a,
        _ => {
            return Err(DecodeError::MalformedRecord);
        },
    };
    let mut out: Vec<TableOfContents> = Vec::new();
    let mut i: usize = 0;
    while i < arr.len()
        invariant
            member_of(*v, "table_of_contents"@) == Some(*m),
            *m matches JsonValue::Array(a) && a@ == arr@,
            i <= arr@.len(),
            out@.len() == i,
            forall|k: int| 0 <= k < i ==> toc_entry_wf(arr@[k]),
            forall|k: int| 0 <= k < i ==> toc_entry_matches(arr@[k], out@[k]),
        decreases arr@.len() - i,
    {
        let entry = &arr[i];
        let type_key = match member_opt_key(entry, "type") {
            Ok(Some(k)) => k,
            Ok(None) => {
                proof {
                    assert(!toc_entry_wf(arr@[i as int]));
                }
                return Err(DecodeError::MalformedRecord);
            },
            Err(e) => {
                proof {
                    assert(!toc_entry_wf(arr@[i as int]));
                }
                return Err(e);
            },
        };
        let level = match member_req_u64(entry, "level") {
            Ok(n) => n,
            Err(e) => {
                proof {
                    assert(!toc_entry_wf(arr@[i as int]));
                }
                return Err(e);
            },
        };
        let label = match member_opt_str(entry, "label") {
            Ok(x) => x,
            Err(e) => {
                proof {
                    assert(!toc_entry_wf(arr@[i as int]));
                }
                return Err(e);
            },
        };
        let title = match member_req_str(entry, "title") {
            Ok(x) => x,
            Err(e) => {
                proof {
                    assert(!toc_entry_wf(arr@[i as int]));
                }
                return Err(e);
            },
        };
        let pagenum = match member_opt_str(entry, "pagenum") {
            Ok(x) => x,
            Err(e) => {
                proof {
                    assert(!toc_entry_wf(arr@[i as int]));
                }
                return Err(e);
            },
        };
        out.push(TableOfContents { type_field: Type { key: type_key }, level, label, title, pagenum });
        i = i + 1;
    }
    Ok(Some(out))
}

/// The canonical shape of an edition's `notes` field.
#[derive(Debug, PartialEq)]
pub struct Notes {
    pub type_field: String,
    pub value: String,
}

impl Clone for Notes {
    fn clone(&self) -> (r: Self)
        ensures
            r == *self,
    {
        Notes { type_field: self.type_field.clone(), value: self.value.clone() }
    }
}

/// The two wire shapes an edition's `notes` field can legitimately take:
/// bare text, or an already structured `{type, value}` object.
#[derive(Clone, Debug, PartialEq)]
pub enum Note {
    NoteType(Notes),
    NoteString(String),
}

impl Note {
    /// Collapses either wire shape into the canonical `{kind, value}`
    /// form: bare text is wrapped under the default kind `"text"`, a
    /// structured value is already canonical and is kept exactly.
    pub fn normalize(&self) -> (r: Notes)
        ensures
            match *self {
                Note::NoteString(ref s) => r.type_field@ == "text"@ && r.value@ == s@,
                Note::NoteType(ref n) => r == *n,
            },
    {
        match self {
            Note::NoteString(s) => Notes { type_field: "text".to_owned(), value: s.clone() },
            Note::NoteType(n) => n.clone(),
        }
    }
}

/// The catalog's schema descriptor for a title member.
#[derive(Clone, Debug, PartialEq)]
pub struct Title {
    pub type_field: String,
}

/// The catalog's schema descriptor for a subtitle member.
#[derive(Clone, Debug, PartialEq)]
pub struct Subtitle {
    pub type_field: String,
}

/// A typed reference: the catalog wraps record type tags as
/// `{"key": "/type/..."}`.
#[derive(Debug, PartialEq)]
pub struct Type {
    pub key: String,
}

impl Clone for Type {
    fn clone(&self) -> (r: Self)
        ensures
            r == *self,
    {
        Type { key: self.key.clone() }
    }
}

/// One author reference of an edition: a bare cross-reference key.
#[derive(Debug, PartialEq)]
pub struct Authors {
    pub key: String,
}

impl Clone for Authors {
    fn clone(&self) -> (r: Self)
        ensures
            r == *self,
    {
        Authors { key: self.key.clone() }
    }
}

/// One work reference of an edition: a bare cross-reference key.
#[derive(Debug, PartialEq)]
pub struct Works {
    pub key: String,
}

impl Clone for Works {
    fn clone(&self) -> (r: Self)
        ensures
            r == *self,
    {
        Works { key: self.key.clone() }
    }
}

/// Remote identifiers of an edition on other cataloging services.
#[derive(Clone, Debug, PartialEq)]
pub struct Identifiers {
    pub librarything: Option<Vec<String>>,
    pub goodreads: Option<Vec<String>>,
}

/// One language reference of an edition.
#[derive(Debug, PartialEq)]
pub struct Language {
    pub key: String,
}

impl Clone for Language {
    fn clone(&self) -> (r: Self)
        ensures
            r == *self,
    {
        Language { key: self.key.clone() }
    }
}

/// The catalog's schema descriptor for a by-statement member.
#[derive(Clone, Debug, PartialEq)]
pub struct ByStatement {
    pub type_field: String,
}

/// A weight note: the catalog's type tag with its example values.
#[derive(Clone, Debug, PartialEq)]
pub struct Weight {
    pub type_field: String,
    pub examples: Vec<String>,
}

/// The catalog's schema descriptor for an edition-name member.
#[derive(Clone, Debug, PartialEq)]
pub struct EditionName {
    pub type_field: String,
    pub examples: Vec<String>,
}

/// The catalog's schema descriptor for a page-count member.
#[derive(Clone, Copy, Debug, PartialEq)]
pub struct NumberOfPages {
    pub type_field: u64,
}

/// Physical dimensions: the catalog's type tag with its example values.
#[derive(Clone, Debug, PartialEq)]
pub struct PhysicalDimensions {
    pub type_field: String,
    pub examples: Vec<String>,
}

/// The catalog's schema descriptor for a physical-format member.
#[derive(Clone, Debug, PartialEq)]
pub struct PhysicalFormat {
    pub type_field: String,
    pub examples: Vec<String>,
}

/// The catalog's schema descriptor for a publish-date member.
#[derive(Clone, Debug, PartialEq)]
pub struct PublishDate {
    pub type_field: String,
    pub examples: Vec<String>,
}

/// One entry of an edition's table of contents.
#[derive(Clone, Debug, PartialEq)]
pub struct TableOfContents {
    pub type_field: Type,
    pub level: u64,
    pub label: Option<String>,
    pub title: String,
    pub pagenum: Option<String>,
}

/// The catalog's schema descriptor for a revision member.
#[derive(Clone, Debug, PartialEq)]
pub struct Revision {
    pub type_field: String,
}

/// The creation stamp of a record.
#[derive(Debug, PartialEq)]
pub struct Created {
    pub type_field: String,
    pub value: String,
}

impl Clone for Created {
    fn clone(&self) -> (r: Self)
        ensures
            r == *self,
    {
        Created { type_field: self.type_field.clone(), value: self.value.clone() }
    }
}

/// The last-modification stamp of a record.
#[derive(Debug, PartialEq)]
pub struct LastModified {
    pub type_field: String,
    pub value: String,
}

impl Clone for LastModified {
    fn clone(&self) -> (r: Self)
        ensures
            r == *self,
    {
        LastModified { type_field: self.type_field.clone(), value: self.value.clone() }
    }
}

} // verus!
