//! Normalization of ambiguous text fields.
//!
//! The catalog's schema drifted over the years: a logical text field such
//! as an author's `bio`, an edition's `notes` or a work's `description`
//! arrives on the wire either as bare text or as a structured
//! `{type, value}` object. This module holds the one shape-generic decode
//! routine that collapses both wire shapes into the canonical
//! `{kind, value}` form, and rejects every other JSON kind.

use vstd::prelude::*;

verus! {

/// The wire shape of an ambiguous field, as observed in the JSON record.
/// `Text` and `Structured` are the two shapes the catalog legitimately
/// uses; the remaining kinds occur only when the schema drifted further
/// than this crate models, and decoding rejects them.
#[derive(Clone, Debug)]
pub enum WireValue {
    /// A bare JSON string.
    Text(String),
    /// A JSON object; `type_tag` and `value` carry its `type` and `value`
    /// members where those are strings, and `None` where a member is
    /// missing or not a string.
    Structured { type_tag: Option<String>, value: Option<String> },
    /// A JSON number.
    Number,
    /// A JSON array.
    List,
    /// A JSON boolean.
    Boolean,
    /// A JSON null.
    Null,
}

/// The JSON kind observed for an ambiguous field; names the shape in a
/// decode error.
#[derive(Clone, Copy, Debug, PartialEq, Eq)]
pub enum WireKind {
    Text,
    Structured,
    Number,
    List,
    Boolean,
    Null,
}

/// The JSON kind of a wire value.
pub open spec fn wire_kind_of(w: WireValue) -> WireKind {
    match w {
        WireValue::Text(_) => WireKind::Text,
        WireValue::Structured { .. } => WireKind::Structured,
        WireValue::Number => WireKind::Number,
        WireValue::List => WireKind::List,
        WireValue::Boolean => WireKind::Boolean,
        WireValue::Null => WireKind::Null,
    }
}

/// Which logical field an ambiguous value was read from; names the field
/// in a decode error.
#[derive(Clone, Copy, Debug, PartialEq, Eq)]
pub enum AmbiguousField {
    /// An author's `bio`.
    Bio,
    /// An edition's `notes`.
    Notes,
    /// A work's `description`.
    Description,
}

/// The canonical in-memory shape of an ambiguous text field, whichever
/// wire shape produced it.
#[derive(Clone, Debug)]
pub struct CanonicalText {
    /// The type tag: the structured wire object's own `type` member, or
    /// `"text"` where the wire form was bare text.
    pub kind: String,
    /// The text content, carried over unchanged from the wire.
    pub value: String,
}

/// Why a record could not be materialized from its JSON.
#[derive(Clone, Debug)]
pub enum DecodeError {
    /// An ambiguous field arrived as neither bare text nor a structured
    /// object holding a text `value`: the catalog schema drifted further
    /// than this crate models.
    UnexpectedFieldShape { field: AmbiguousField, observed: WireKind },
    /// The record body was not JSON at all.
    NotJson,
    /// A plain (non-ambiguous) member was missing or had the wrong type.
    MalformedRecord,
}

/// A wire value that decodes into the canonical form: bare text, or a
/// structured object carrying a text `value`.
pub open spec fn canonical_wf(w: WireValue) -> bool {
    match w {
        WireValue::Text(_) => true,
        WireValue::Structured { type_tag: _, value } => value is Some,
        _ => false,
    }
}

/// The canonical `{kind, value}` that decoding yields for a wire value:
/// bare text `t` becomes kind `"text"` with value `t`; a structured
/// object keeps its own `value` and its own type tag as the kind (an
/// absent tag defaults to the empty tag); nothing else decodes.
pub open spec fn canonical_matches(w: WireValue, kind: Seq<char>, value: Seq<char>) -> bool {
    match w {
        WireValue::Text(t) => kind == "text"@ && value == t@,
        WireValue::Structured { type_tag, value: v } => v matches Some(vv) && value == vv@ && kind
            == (match type_tag {
            Some(k) => k@,
            None => ""@,
        }),
        _ => false,
    }
}

/// Decodes one ambiguous field from its wire shape into the canonical
/// `{kind, value}` form. Bare text is wrapped with the default kind
/// `"text"`; a structured object is taken by its own `type` and `value`
/// members (a missing `type` defaults to the empty tag); every other JSON
/// kind — and an object without a text `value` — is an
/// `UnexpectedFieldShape` error naming the field and the kind observed,
/// never a silent default.
pub fn decode_ambiguous(field: AmbiguousField, wire: &WireValue) -> (r: Result<
    CanonicalText,
    DecodeError,
>)
    ensures
        (r is Ok) == canonical_wf(*wire),
        r matches Ok(c) ==> canonical_matches(*wire, c.kind@, c.value@),
        r matches Err(e) ==> e == (DecodeError::UnexpectedFieldShape {
            field,
            observed: wire_kind_of(*wire),
        }),
{
    match wire {
        WireValue::Text(t) => Ok(CanonicalText { kind: "text".to_owned(), value: t.clone() }),
        WireValue::Structured { type_tag, value } => match value {
            Some(v) => {
                let kind = match type_tag {
                    Some(k) => k.clone(),
                    None => "".to_owned(),
                };
                Ok(CanonicalText { kind, value: v.clone() })
            },
            None => Err(
                DecodeError::UnexpectedFieldShape { field, observed: WireKind::Structured },
            ),
        },
        WireValue::Number => Err(
            DecodeError::UnexpectedFieldShape { field, observed: WireKind::Number },
        ),
        WireValue::List => Err(DecodeError::UnexpectedFieldShape { field, observed: WireKind::List }),
        WireValue::Boolean => Err(
            DecodeError::UnexpectedFieldShape { field, observed: WireKind::Boolean },
        ),
        WireValue::Null => Err(DecodeError::UnexpectedFieldShape { field, observed: WireKind::Null }),
    }
}

/// Law: decoding an ambiguous field loses no information. Bare text `t`
/// decodes to exactly `{kind: "text", value: t}`; a structured wire object
/// already carrying a type tag `k` and a text value `v` decodes to exactly
/// `{kind: k, value: v}`; so the text content round-trips identically
/// through either wire shape, and two wire shapes carrying the same text
/// normalize to values with the same content.
pub proof fn lemma_decode_preserves_content(
    field: AmbiguousField,
    t: String,
    k: String,
    v: String,
    r_text: Result<CanonicalText, DecodeError>,
    r_structured: Result<CanonicalText, DecodeError>,
)
    requires
        call_ensures(decode_ambiguous, (field, &WireValue::Text(t)), r_text),
        call_ensures(
            decode_ambiguous,
            (field, &WireValue::Structured { type_tag: Some(k), value: Some(v) }),
            r_structured,
        ),
    ensures
        r_text matches Ok(c) && c.kind@ == "text"@ && c.value@ == t@,
        r_structured matches Ok(c) && c.kind@ == k@ && c.value@ == v@,
        t@ == v@ ==> (r_text matches Ok(ct) && r_structured matches Ok(cs) && ct.value@
            == cs.value@),
{
}

} // verus!
