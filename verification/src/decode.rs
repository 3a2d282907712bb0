//! Verified access to a parsed JSON document.
//!
//! The spec functions here give every read its mathematical meaning over
//! the `JsonValue` model — which member an object holds under a name, and
//! what a member's typed value is — and each executable helper is proved
//! exact against them: a missing member is tolerated where the record
//! model tolerates it, a member of the wrong type is a malformed record,
//! if and only if.

use crate::ambiguous::DecodeError;
use crate::ambiguous::WireValue;
use crate::json::JsonValue;
use vstd::prelude::*;

verus! {

/// The value under `name` in a member list: the first entry whose key is
/// `name` (the model's keys are unique, so the first entry is the entry).
pub open spec fn member_in(pairs: Seq<(String, JsonValue)>, name: Seq<char>) -> Option<JsonValue>
    decreases pairs.len(),
{
    if pairs.len() == 0 {
        None
    } else if pairs[0].0@ == name {
        Some(pairs[0].1)
    } else {
        member_in(pairs.drop_first(), name)
    }
}

/// The member of a JSON object under `name`; `None` where the value is no
/// object or has no such member.
pub open spec fn member_of(j: JsonValue, name: Seq<char>) -> Option<JsonValue> {
    match j {
        JsonValue::Object(pairs) => member_in(pairs@, name),
        _ => None,
    }
}

/// The characters of a text member, `None` where the member is absent or
/// no text.
pub open spec fn text_member(j: JsonValue, name: Seq<char>) -> Option<String> {
    match member_of(j, name) {
        Some(JsonValue::Text(s)) => Some(s),
        _ => None,
    }
}

/// The value of an unsigned integer member, `None` where the member is
/// absent or no unsigned integer.
pub open spec fn unsigned_member(j: JsonValue, name: Seq<char>) -> Option<u64> {
    match member_of(j, name) {
        Some(JsonValue::Unsigned(n)) => Some(n),
        _ => None,
    }
}

/// An optional text member is well-formed when it is absent or text.
pub open spec fn opt_text_wf(j: JsonValue, name: Seq<char>) -> bool {
    match member_of(j, name) {
        None => true,
        Some(m) => m is Text,
    }
}

/// A required text member is well-formed when it is present and text.
pub open spec fn req_text_wf(j: JsonValue, name: Seq<char>) -> bool {
    member_of(j, name) matches Some(m) && m is Text
}

/// An optional unsigned member is well-formed when absent or an unsigned
/// integer.
pub open spec fn opt_unsigned_wf(j: JsonValue, name: Seq<char>) -> bool {
    match member_of(j, name) {
        None => true,
        Some(m) => m is Unsigned,
    }
}

/// A required unsigned member is well-formed when present and an unsigned
/// integer.
pub open spec fn req_unsigned_wf(j: JsonValue, name: Seq<char>) -> bool {
    member_of(j, name) matches Some(m) && m is Unsigned
}

/// A value that is an array of texts.
pub open spec fn str_list_wf(m: JsonValue) -> bool {
    m matches JsonValue::Array(a) && forall|i: int| 0 <= i < a@.len() ==> a@[i] is Text
}

/// `v` holds exactly the texts of the array `m`, in order.
pub open spec fn str_list_matches(m: JsonValue, v: Seq<String>) -> bool {
    m matches JsonValue::Array(a) && v.len() == a@.len() && forall|i: int|
        #![trigger a@[i]]
        0 <= i < v.len() ==> (a@[i] matches JsonValue::Text(s) && v[i] == s)
}

/// An optional string-list member is well-formed when absent or an array
/// of texts.
pub open spec fn opt_str_list_wf(j: JsonValue, name: Seq<char>) -> bool {
    match member_of(j, name) {
        None => true,
        Some(m) => str_list_wf(m),
    }
}

/// The field holds `None` exactly when the member is absent, and the
/// array's texts otherwise.
pub open spec fn opt_str_list_matches(j: JsonValue, name: Seq<char>, f: Option<Vec<String>>) -> bool {
    match member_of(j, name) {
        None => f is None,
        Some(m) => f matches Some(v) && str_list_matches(m, v@),
    }
}

/// The signed 64-bit reading of a JSON number, as the wire integers of
/// the catalog are read: any integer within the signed range.
pub open spec fn spec_i64_of(m: JsonValue) -> Option<i64> {
    match m {
        JsonValue::Unsigned(u) => if u <= 0x7fff_ffff_ffff_ffffu64 {
            Some(u as i64)
        } else {
            None
        },
        JsonValue::Signed(i) => Some(i),
        _ => None,
    }
}

/// A value that is an array of signed-range integers.
pub open spec fn i64_list_wf(m: JsonValue) -> bool {
    m matches JsonValue::Array(a) && forall|i: int| 0 <= i < a@.len() ==> spec_i64_of(a@[i]) is Some
}

/// `v` holds exactly the signed readings of the array `m`, in order.
pub open spec fn i64_list_matches(m: JsonValue, v: Seq<i64>) -> bool {
    m matches JsonValue::Array(a) && v.len() == a@.len() && forall|i: int|
        0 <= i < v.len() ==> Some(v[i]) == spec_i64_of(a@[i])
}

/// A value that is an array of unsigned integers.
pub open spec fn u64_list_wf(m: JsonValue) -> bool {
    m matches JsonValue::Array(a) && forall|i: int| 0 <= i < a@.len() ==> a@[i] is Unsigned
}

/// `v` holds exactly the unsigned integers of the array `m`, in order.
pub open spec fn u64_list_matches(m: JsonValue, v: Seq<u64>) -> bool {
    m matches JsonValue::Array(a) && v.len() == a@.len() && forall|i: int|
        #![trigger a@[i]]
        0 <= i < v.len() ==> (a@[i] matches JsonValue::Unsigned(n) && v[i] == n)
}

/// The `key` text of a typed reference object such as
/// `{"key": "/works/OL1W"}`.
pub open spec fn key_of(m: JsonValue) -> Option<String> {
    text_member(m, "key"@)
}

/// The `key` text of an object member: `None` where the member is absent
/// or carries no text `key`.
pub open spec fn opt_key_of(j: JsonValue, name: Seq<char>) -> Option<String> {
    match member_of(j, name) {
        Some(m) => key_of(m),
        None => None,
    }
}

/// A value that is an array of typed references, each with a text `key`.
pub open spec fn key_list_wf(m: JsonValue) -> bool {
    m matches JsonValue::Array(a) && forall|i: int| 0 <= i < a@.len() ==> key_of(a@[i]) is Some
}

/// `keys` holds exactly the `key` texts of the array `m`, in order.
pub open spec fn key_list_matches(m: JsonValue, keys: Seq<String>) -> bool {
    m matches JsonValue::Array(a) && keys.len() == a@.len() && forall|i: int|
        0 <= i < keys.len() ==> Some(keys[i]) == key_of(a@[i])
}

/// A `{type, value}` stamp object with both members text.
pub open spec fn typed_value_wf(m: JsonValue) -> bool {
    text_member(m, "type"@) is Some && text_member(m, "value"@) is Some
}

/// `type_field` and `value` are exactly the two texts of the stamp
/// object `m`.
pub open spec fn typed_value_matches(m: JsonValue, type_field: String, value: String) -> bool {
    Some(type_field) == text_member(m, "type"@) && Some(value) == text_member(m, "value"@)
}

/// A well-formed `{type, examples}` note object: a text type tag with a
/// list of text examples.
pub open spec fn examples_obj_wf(m: JsonValue) -> bool {
    &&& req_text_wf(m, "type"@)
    &&& member_of(m, "examples"@) matches Some(e) && str_list_wf(e)
}

/// `type_field` and `examples` hold exactly the note object's tag and
/// example texts.
pub open spec fn examples_obj_matches(m: JsonValue, type_field: String, examples: Seq<String>) -> bool {
    &&& Some(type_field) == text_member(m, "type"@)
    &&& member_of(m, "examples"@) matches Some(e) && str_list_matches(e, examples)
}

/// The wire shape of an ambiguous field's JSON value: text and
/// `{type, value}` objects keep their strings, every other kind only its
/// shape.
pub open spec fn spec_wire_of(m: JsonValue) -> WireValue {
    match m {
        JsonValue::Text(s) => WireValue::Text(s),
        JsonValue::Object(_) => WireValue::Structured {
            type_tag: text_member(m, "type"@),
            value: text_member(m, "value"@),
        },
        JsonValue::Unsigned(_) => WireValue::Number,
        JsonValue::Signed(_) => WireValue::Number,
        JsonValue::OtherNumber => WireValue::Number,
        JsonValue::Array(_) => WireValue::List,
        JsonValue::Boolean(_) => WireValue::Boolean,
        JsonValue::Null => WireValue::Null,
    }
}

proof fn lemma_member_in_found(pairs: Seq<(String, JsonValue)>, name: Seq<char>, i: int)
    requires
        0 <= i < pairs.len(),
        forall|k: int| 0 <= k < i ==> pairs[k].0@ != name,
        pairs[i].0@ == name,
    ensures
        member_in(pairs, name) == Some(pairs[i].1),
    decreases i,
{
    if i > 0 {
        assert forall|k: int| 0 <= k < i - 1 implies pairs.drop_first()[k].0@ != name by {
            assert(pairs.drop_first()[k] == pairs[k + 1]);
        }
        assert(pairs.drop_first()[i - 1] == pairs[i]);
        lemma_member_in_found(pairs.drop_first(), name, i - 1);
    }
}

proof fn lemma_member_in_absent(pairs: Seq<(String, JsonValue)>, name: Seq<char>)
    requires
        forall|k: int| 0 <= k < pairs.len() ==> pairs[k].0@ != name,
    ensures
        member_in(pairs, name) is None,
    decreases pairs.len(),
{
    if pairs.len() > 0 {
        assert forall|k: int| 0 <= k < pairs.drop_first().len() implies pairs.drop_first()[k].0@
            != name by {
            assert(pairs.drop_first()[k] == pairs[k + 1]);
        }
        lemma_member_in_absent(pairs.drop_first(), name);
    }
}

/// The member of an object under `name`, exactly as `member_of` reads it.
pub(crate) fn get_member<'a>(j: &'a JsonValue, name: &str) -> (r: Option<&'a JsonValue>)
    ensures
        r matches Some(m) ==> member_of(*j, name@) == Some(*m),
        r is None ==> member_of(*j, name@) is None,
{
    let pairs = match j {
        JsonValue::Object(pairs) => pairs,
        _ => {
            return None;
        },
    };
    let name_s = name.to_owned();
    let mut i: usize = 0;
    while i < pairs.len()
        invariant
            *j matches JsonValue::Object(p) && p@ == pairs@,
            i <= pairs@.len(),
            name_s@ == name@,
            forall|k: int| 0 <= k < i ==> pairs@[k].0@ != name@,
        decreases pairs@.len() - i,
    {
        if pairs[i].0 == name_s {
            proof {
                lemma_member_in_found(pairs@, name@, i as int);
            }
            return Some(&pairs[i].1);
        }
        i = i + 1;
    }
    proof {
        lemma_member_in_absent(pairs@, name@);
    }
    None
}

/// A text member that may be absent; present but not text is an error.
pub(crate) fn member_opt_str(j: &JsonValue, name: &str) -> (r: Result<Option<String>, DecodeError>)
    ensures
        match member_of(*j, name@) {
            Option::None => r == Ok::<Option<String>, DecodeError>(None),
            Option::Some(m) => match m {
                JsonValue::Text(s) => r == Ok::<Option<String>, DecodeError>(Some(s)),
                _ => r == Err::<Option<String>, DecodeError>(DecodeError::MalformedRecord),
            },
        },
{
    match get_member(j, name) {
        None => Ok(None),
        Some(m) => match m {
            JsonValue::Text(s) => Ok(Some(s.clone())),
            _ => Err(DecodeError::MalformedRecord),
        },
    }
}

/// A text member that must be present.
pub(crate) fn member_req_str(j: &JsonValue, name: &str) -> (r: Result<String, DecodeError>)
    ensures
        match text_member(*j, name@) {
            Option::Some(s) => r == Ok::<String, DecodeError>(s),
            Option::None => r == Err::<String, DecodeError>(DecodeError::MalformedRecord),
        },
{
    match get_member(j, name) {
        None => Err(DecodeError::MalformedRecord),
        Some(m) => match m {
            JsonValue::Text(s) => Ok(s.clone()),
            _ => Err(DecodeError::MalformedRecord),
        },
    }
}

/// An unsigned integer member that may be absent.
pub(crate) fn member_opt_u64(j: &JsonValue, name: &str) -> (r: Result<Option<u64>, DecodeError>)
    ensures
        match member_of(*j, name@) {
            Option::None => r == Ok::<Option<u64>, DecodeError>(None),
            Option::Some(m) => match m {
                JsonValue::Unsigned(n) => r == Ok::<Option<u64>, DecodeError>(Some(n)),
                _ => r == Err::<Option<u64>, DecodeError>(DecodeError::MalformedRecord),
            },
        },
{
    match get_member(j, name) {
        None => Ok(None),
        Some(m) => match m {
            JsonValue::Unsigned(n) => Ok(Some(*n)),
            _ => Err(DecodeError::MalformedRecord),
        },
    }
}

/// An unsigned integer member that must be present.
pub(crate) fn member_req_u64(j: &JsonValue, name: &str) -> (r: Result<u64, DecodeError>)
    ensures
        match unsigned_member(*j, name@) {
            Option::Some(n) => r == Ok::<u64, DecodeError>(n),
            Option::None => r == Err::<u64, DecodeError>(DecodeError::MalformedRecord),
        },
{
    match get_member(j, name) {
        None => Err(DecodeError::MalformedRecord),
        Some(m) => match m {
            JsonValue::Unsigned(n) => Ok(*n),
            _ => Err(DecodeError::MalformedRecord),
        },
    }
}

/// The texts of a JSON array.
pub(crate) fn str_list(m: &JsonValue) -> (r: Result<Vec<String>, DecodeError>)
    ensures
        str_list_wf(*m) ==> (r matches Ok(v) && str_list_matches(*m, v@)),
        !str_list_wf(*m) ==> r == Err::<Vec<String>, DecodeError>(DecodeError::MalformedRecord),
{
    let arr = match m {
        JsonValue::Array(a) => a,
        _ => {
            return Err(DecodeError::MalformedRecord);
        },
    };
    let mut items: Vec<String> = Vec::new();
    let mut i: usize = 0;
    while i < arr.len()
        invariant
            *m matches JsonValue::Array(a) && a@ == arr@,
            i <= arr@.len(),
            items@.len() == i,
            forall|k: int|
                #![trigger arr@[k]]
                0 <= k < i ==> (arr@[k] matches JsonValue::Text(s) && items@[k] == s),
        decreases arr@.len() - i,
    {
        match &arr[i] {
            JsonValue::Text(s) => items.push(s.clone()),
            _ => {
                return Err(DecodeError::MalformedRecord);
            },
        }
        i = i + 1;
    }
    Ok(items)
}

/// The texts of an array member that may be absent.
pub(crate) fn member_opt_str_list(j: &JsonValue, name: &str) -> (r: Result<
    Option<Vec<String>>,
    DecodeError,
>)
    ensures
        match member_of(*j, name@) {
            Option::None => r == Ok::<Option<Vec<String>>, DecodeError>(None),
            Option::Some(m) => if str_list_wf(m) {
                r matches Ok(f) && f matches Some(v) && str_list_matches(m, v@)
            } else {
                r == Err::<Option<Vec<String>>, DecodeError>(DecodeError::MalformedRecord)
            },
        },
{
    match get_member(j, name) {
        None => Ok(None),
        Some(m) => match str_list(m) {
            Ok(items) => Ok(Some(items)),
            Err(e) => Err(e),
        },
    }
}

/// The signed readings of an array member that may be absent.
pub(crate) fn member_opt_i64_list(j: &JsonValue, name: &str) -> (r: Result<
    Option<Vec<i64>>,
    DecodeError,
>)
    ensures
        match member_of(*j, name@) {
            Option::None => r == Ok::<Option<Vec<i64>>, DecodeError>(None),
            Option::Some(m) => if i64_list_wf(m) {
                r matches Ok(f) && f matches Some(v) && i64_list_matches(m, v@)
            } else {
                r == Err::<Option<Vec<i64>>, DecodeError>(DecodeError::MalformedRecord)
            },
        },
{
    let m = match get_member(j, name) {
        None => {
            return Ok(None);
        },
        Some(m) => m,
    };
    let arr = match m {
        JsonValue::Array(a) => a,
        _ => {
            return Err(DecodeError::MalformedRecord);
        },
    };
    let mut items: Vec<i64> = Vec::new();
    let mut i: usize = 0;
    while i < arr.len()
        invariant
            member_of(*j, name@) == Some(*m),
            *m matches JsonValue::Array(a) && a@ == arr@,
            i <= arr@.len(),
            items@.len() == i,
            forall|k: int| 0 <= k < i ==> Some(items@[k]) == spec_i64_of(arr@[k]),
        decreases arr@.len() - i,
    {
        let n: i64 = match &arr[i] {
            JsonValue::Unsigned(u) => {
                if *u <= 0x7fff_ffff_ffff_ffffu64 {
                    *u as i64
                } else {
                    proof {
                        assert(spec_i64_of(arr@[i as int]) is None);
                    }
                    return Err(DecodeError::MalformedRecord);
                }
            },
            JsonValue::Signed(s) => *s,
            _ => {
                proof {
                    assert(spec_i64_of(arr@[i as int]) is None);
                }
                return Err(DecodeError::MalformedRecord);
            },
        };
        items.push(n);
        i = i + 1;
    }
    Ok(Some(items))
}

/// The unsigned integers of an array member that may be absent.
pub(crate) fn member_opt_u64_list(j: &JsonValue, name: &str) -> (r: Result<
    Option<Vec<u64>>,
    DecodeError,
>)
    ensures
        match member_of(*j, name@) {
            Option::None => r == Ok::<Option<Vec<u64>>, DecodeError>(None),
            Option::Some(m) => if u64_list_wf(m) {
                r matches Ok(f) && f matches Some(v) && u64_list_matches(m, v@)
            } else {
                r == Err::<Option<Vec<u64>>, DecodeError>(DecodeError::MalformedRecord)
            },
        },
{
    let m = match get_member(j, name) {
        None => {
            return Ok(None);
        },
        Some(m) => m,
    };
    let arr = match m {
        JsonValue::Array(a) => a,
        _ => {
            return Err(DecodeError::MalformedRecord);
        },
    };
    let mut items: Vec<u64> = Vec::new();
    let mut i: usize = 0;
    while i < arr.len()
        invariant
            member_of(*j, name@) == Some(*m),
            *m matches JsonValue::Array(a) && a@ == arr@,
            i <= arr@.len(),
            items@.len() == i,
            forall|k: int|
                #![trigger arr@[k]]
                0 <= k < i ==> (arr@[k] matches JsonValue::Unsigned(n) && items@[k] == n),
        decreases arr@.len() - i,
    {
        match &arr[i] {
            JsonValue::Unsigned(n) => items.push(*n),
            _ => {
                proof {
                    assert(!(arr@[i as int] is Unsigned));
                }
                return Err(DecodeError::MalformedRecord);
            },
        }
        i = i + 1;
    }
    Ok(Some(items))
}

/// The `key` text of an object member (a typed reference) that may be
/// absent.
pub(crate) fn member_opt_key(j: &JsonValue, name: &str) -> (r: Result<Option<String>, DecodeError>)
    ensures
        match member_of(*j, name@) {
            Option::None => r == Ok::<Option<String>, DecodeError>(None),
            Option::Some(m) => match key_of(m) {
                Option::Some(s) => r == Ok::<Option<String>, DecodeError>(Some(s)),
                Option::None => r == Err::<Option<String>, DecodeError>(
                    DecodeError::MalformedRecord,
                ),
            },
        },
{
    match get_member(j, name) {
        None => Ok(None),
        Some(m) => match member_req_str(m, "key") {
            Ok(s) => Ok(Some(s)),
            Err(e) => Err(e),
        },
    }
}

/// The `key` texts of an array of typed references, for a member that may
/// be absent.
pub(crate) fn member_opt_key_list(j: &JsonValue, name: &str) -> (r: Result<
    Option<Vec<String>>,
    DecodeError,
>)
    ensures
        match member_of(*j, name@) {
            Option::None => r == Ok::<Option<Vec<String>>, DecodeError>(None),
            Option::Some(m) => if key_list_wf(m) {
                r matches Ok(f) && f matches Some(keys) && key_list_matches(m, keys@)
            } else {
                r == Err::<Option<Vec<String>>, DecodeError>(DecodeError::MalformedRecord)
            },
        },
{
    let m = match get_member(j, name) {
        None => {
            return Ok(None);
        },
        Some(m) => m,
    };
    let arr = match m {
        JsonValue::Array(a) => a,
        _ => {
            return Err(DecodeError::MalformedRecord);
        },
    };
    let mut items: Vec<String> = Vec::new();
    let mut i: usize = 0;
    while i < arr.len()
        invariant
            member_of(*j, name@) == Some(*m),
            *m matches JsonValue::Array(a) && a@ == arr@,
            i <= arr@.len(),
            items@.len() == i,
            forall|k: int| 0 <= k < i ==> Some(items@[k]) == key_of(arr@[k]),
        decreases arr@.len() - i,
    {
        match member_req_str(&arr[i], "key") {
            Ok(s) => items.push(s),
            Err(e) => {
                proof {
                    assert(key_of(arr@[i as int]) is None);
                }
                return Err(e);
            },
        }
        i = i + 1;
    }
    Ok(Some(items))
}

/// A `{type, value}` stamp member that may be absent; returns its two
/// texts.
pub(crate) fn member_opt_typed_value(j: &JsonValue, name: &str) -> (r: Result<
    Option<(String, String)>,
    DecodeError,
>)
    ensures
        match member_of(*j, name@) {
            Option::None => r == Ok::<Option<(String, String)>, DecodeError>(None),
            Option::Some(m) => if typed_value_wf(m) {
                r matches Ok(f) && f matches Some(tv) && Some(tv.0) == text_member(m, "type"@)
                    && Some(tv.1) == text_member(m, "value"@)
            } else {
                r == Err::<Option<(String, String)>, DecodeError>(DecodeError::MalformedRecord)
            },
        },
{
    let m = match get_member(j, name) {
        None => {
            return Ok(None);
        },
        Some(m) => m,
    };
    let type_field = match member_req_str(m, "type") {
        Ok(s) => s,
        Err(e) => {
            return Err(e);
        },
    };
    let value = match member_req_str(m, "value") {
        Ok(s) => s,
        Err(e) => {
            return Err(e);
        },
    };
    Ok(Some((type_field, value)))
}

/// The wire shape of an ambiguous member, exactly as `spec_wire_of` reads
/// it; `None` where the member is absent (which is not an error: the
/// field stays empty).
pub(crate) fn member_wire(j: &JsonValue, name: &str) -> (r: Option<WireValue>)
    ensures
        match member_of(*j, name@) {
            Option::None => r is None,
            Option::Some(m) => r == Some(spec_wire_of(m)),
        },
{
    match get_member(j, name) {
        None => None,
        Some(m) => Some(wire_of(m)),
    }
}

/// The wire shape of one JSON value.
pub(crate) fn wire_of(m: &JsonValue) -> (r: WireValue)
    ensures
        r == spec_wire_of(*m),
{
    match m {
        JsonValue::Text(s) => WireValue::Text(s.clone()),
        JsonValue::Object(_) => {
            let type_tag = match member_opt_str(m, "type") {
                Ok(t) => t,
                Err(_) => None,
            };
            let value = match member_opt_str(m, "value") {
                Ok(t) => t,
                Err(_) => None,
            };
            WireValue::Structured { type_tag, value }
        },
        JsonValue::Unsigned(_) => WireValue::Number,
        JsonValue::Signed(_) => WireValue::Number,
        JsonValue::OtherNumber => WireValue::Number,
        JsonValue::Array(_) => WireValue::List,
        JsonValue::Boolean(_) => WireValue::Boolean,
        JsonValue::Null => WireValue::Null,
    }
}

} // verus!
