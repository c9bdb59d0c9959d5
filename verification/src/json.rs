//! Reading JSON documents through `serde_json::Value`: members, text,
//! flags and numbers, each under a name for what the accessor returns.
use vstd::prelude::*;

verus! {

#[verifier::external_type_specification]
#[verifier::external_body]
pub struct ExJsonValue(serde_json::Value);

/// `serde_json::Value`'s derived `Clone`: a deep copy, so the copy is the
/// same JSON value.
pub assume_specification[ <serde_json::Value as Clone>::clone ](value: &serde_json::Value) -> (r: serde_json::Value)
    ensures
        r == *value,
;

/// Whether a value is a JSON object.
pub uninterp spec fn json_is_object(value: serde_json::Value) -> bool;

/// `serde_json::Value::is_object`. Stated: the result is `json_is_object`
/// of the value.
#[verifier::external_body]
pub(crate) fn is_object(value: &serde_json::Value) -> (r: bool)
    ensures
        r == json_is_object(*value),
{
    value.is_object()
}

/// What `serde_json::Value::get` finds under a key: the member of an object
/// with that name (nothing for a value that is not an object).
pub uninterp spec fn json_member(value: serde_json::Value, key: Seq<char>) -> Option<serde_json::Value>;

/// `serde_json::Value::get` with a string key, the member copied out.
/// Stated: the result is `json_member` of the value and the key.
#[verifier::external_body]
pub(crate) fn member(value: &serde_json::Value, key: &str) -> (r: Option<serde_json::Value>)
    ensures
        r == json_member(*value, key@),
{
    value.get(key).cloned()
}

/// What `serde_json::Value::as_str` reads: the text of a JSON string.
pub uninterp spec fn json_text(value: serde_json::Value) -> Option<Seq<char>>;

/// `serde_json::Value::as_str`, copied into a `String`. Stated: the result
/// is `json_text` of the value.
#[verifier::external_body]
pub(crate) fn as_text(value: &serde_json::Value) -> (r: Option<String>)
    ensures
        match r {
            Some(t) => json_text(*value) == Some(t@),
            None => json_text(*value) is None,
        },
{
    value.as_str().map(str::to_string)
}

/// What `serde_json::Value::as_bool` reads: the value of a JSON boolean.
pub uninterp spec fn json_flag(value: serde_json::Value) -> Option<bool>;

/// `serde_json::Value::as_bool`. Stated: the result is `json_flag` of the
/// value.
#[verifier::external_body]
pub(crate) fn as_flag(value: &serde_json::Value) -> (r: Option<bool>)
    ensures
        r == json_flag(*value),
{
    value.as_bool()
}

/// What `serde_json::Value::as_i64` reads: a JSON integer that fits an
/// `i64`.
pub uninterp spec fn json_int(value: serde_json::Value) -> Option<i64>;

/// `serde_json::Value::as_i64`. Stated: the result is `json_int` of the
/// value.
#[verifier::external_body]
pub(crate) fn as_int(value: &serde_json::Value) -> (r: Option<i64>)
    ensures
        r == json_int(*value),
{
    value.as_i64()
}

/// What `serde_json::Value::as_u64` reads: a JSON integer from 0 to
/// `u64::MAX`.
pub uninterp spec fn json_count(value: serde_json::Value) -> Option<u64>;

/// `serde_json::Value::as_u64`. Stated: the result is `json_count` of the
/// value.
#[verifier::external_body]
pub(crate) fn as_count(value: &serde_json::Value) -> (r: Option<u64>)
    ensures
        r == json_count(*value),
{
    value.as_u64()
}

/// The compact JSON text that `serde_json::Value`'s `Display` writes.
pub uninterp spec fn json_display(value: serde_json::Value) -> Seq<char>;

/// `serde_json::Value::to_string` (its `Display`). Stated: the result is
/// `json_display` of the value.
#[verifier::external_body]
pub(crate) fn display(value: &serde_json::Value) -> (r: String)
    ensures
        r@ == json_display(*value),
{
    value.to_string()
}

/// What `serde_json::from_str` makes of a text: the document, or the text
/// of the error it reports.
pub uninterp spec fn json_parse(text: Seq<char>) -> Result<serde_json::Value, Seq<char>>;

/// `serde_json::from_str` into a `serde_json::Value`, the error written out
/// with `to_string`. Stated: the result is `json_parse` of the text.
#[verifier::external_body]
pub(crate) fn parse(text: &str) -> (r: Result<serde_json::Value, String>)
    ensures
        match r {
            Ok(v) => json_parse(text@) == Ok::<serde_json::Value, Seq<char>>(v),
            Err(e) => json_parse(text@) == Err::<serde_json::Value, Seq<char>>(e@),
        },
{
    serde_json::from_str::<serde_json::Value>(text).map_err(|error| error.to_string())
}

/// How many members an object has (nothing for a value that is not an
/// object).
pub uninterp spec fn json_object_len(value: serde_json::Value) -> Option<nat>;

/// `serde_json::Value::as_object`, then the map's `len`. Stated: the
/// result is `json_object_len` of the value.
#[verifier::external_body]
pub(crate) fn object_len(value: &serde_json::Value) -> (r: Option<usize>)
    ensures
        match r {
            Some(n) => json_object_len(*value) == Some(n as nat),
            None => json_object_len(*value) is None,
        },
{
    value.as_object().map(|object| object.len())
}

/// A JSON string holding the text.
pub uninterp spec fn json_string(text: Seq<char>) -> serde_json::Value;

/// `serde_json::Value::String`. Stated: the result is `json_string` of the
/// text.
#[verifier::external_body]
pub(crate) fn string_value(text: &str) -> (r: serde_json::Value)
    ensures
        r == json_string(text@),
{
    serde_json::Value::String(text.to_string())
}

/// An object with the member `key` set to `member` (added, or replacing the
/// one there); nothing for a value that is not an object.
pub uninterp spec fn json_with_member(value: serde_json::Value, key: Seq<char>, member: serde_json::Value) -> Option<
    serde_json::Value,
>;

/// `serde_json::Map::insert` on a copy of an object's map
/// (`as_object_mut`). Stated: the result is `json_with_member` of the
/// value, the key and the member.
#[verifier::external_body]
pub(crate) fn with_member(value: &serde_json::Value, key: &str, member: serde_json::Value) -> (r: Option<serde_json::Value>)
    ensures
        r == json_with_member(*value, key@, member),
{
    let mut copy = value.clone();
    copy.as_object_mut()?.insert(key.to_string(), member);
    Some(copy)
}

} // verus!
