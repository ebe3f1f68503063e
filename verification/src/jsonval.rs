//! The trusted surface over the JSON library: the value type, parsing, and
//! the three read-only accessors the stream decoders navigate with. Each
//! accessor's result is a function of its arguments alone, so it bears a
//! name that the decoders' contracts are stated over.
use vstd::prelude::*;

verus! {

#[verifier::external_type_specification]
#[verifier::external_body]
pub struct ExJsonValue(serde_json::Value);

/// Whether the JSON parser accepts a text; a function of the text alone.
pub uninterp spec fn json_parses(s: Seq<char>) -> bool;

/// The value the JSON parser yields for a text it accepts.
pub uninterp spec fn json_of(s: Seq<char>) -> serde_json::Value;

/// The member of an object under a key, or nothing for other values.
pub uninterp spec fn json_member(v: serde_json::Value, key: Seq<char>) -> Option<serde_json::Value>;

/// The element of an array at a position, or nothing for other values.
pub uninterp spec fn json_element(v: serde_json::Value, i: int) -> Option<serde_json::Value>;

/// The text of a JSON string value, or nothing for other values.
pub uninterp spec fn json_text(v: serde_json::Value) -> Option<Seq<char>>;

/// Relies on `serde_json::from_str::<Value>`: it returns `Ok` exactly on
/// well-formed JSON text, and which value it returns depends on the text
/// alone.
#[verifier::external_body]
pub(crate) fn json_parse(s: &str) -> (r: Option<serde_json::Value>)
    ensures
        r is Some <==> json_parses(s@),
        r matches Some(v) ==> v == json_of(s@),
{
    serde_json::from_str::<serde_json::Value>(s).ok()
}

/// Relies on `serde_json::Value::get` with a string index: the member of
/// an object under that key, or nothing for other values; a function of
/// the value and the key alone.
#[verifier::external_body]
pub(crate) fn json_get<'a>(v: &'a serde_json::Value, key: &str) -> (r: Option<
    &'a serde_json::Value,
>)
    ensures
        match r {
            Some(m) => json_member(*v, key@) == Some(*m),
            None => json_member(*v, key@) is None,
        },
{
    v.get(key)
}

/// Relies on `serde_json::Value::get` with a position index: the element
/// of an array at that position, or nothing for other values; a function
/// of the value and the position alone.
#[verifier::external_body]
pub(crate) fn json_at<'a>(v: &'a serde_json::Value, i: usize) -> (r: Option<&'a serde_json::Value>)
    ensures
        match r {
            Some(m) => json_element(*v, i as int) == Some(*m),
            None => json_element(*v, i as int) is None,
        },
{
    v.get(i)
}

/// Relies on `serde_json::Value::as_str`: the text of a JSON string value,
/// or nothing for other values; a function of the value alone.
#[verifier::external_body]
pub(crate) fn json_as_string(v: &serde_json::Value) -> (r: Option<String>)
    ensures
        match r {
            Some(s) => json_text(*v) == Some(s@),
            None => json_text(*v) is None,
        },
{
    v.as_str().map(|s| s.to_string())
}

} // verus!
