//! The JSON surface of the library.
//!
//! Parsing is done by `serde_json`; this module declares the outside type
//! and gives the few calls the loader makes their contracts. The contracts
//! speak of the parsed document only as far as the loader reads it: whether
//! the text parses at all, and which top-level members are strings.

use vstd::prelude::*;

verus! {

/// `serde_json::Value`, the parsed form of a JSON document, declared so
/// that it can stand in signatures. The library never looks inside it
/// except through the functions below.
#[verifier::external_type_specification]
#[verifier::external_body]
pub struct ExValue(serde_json::Value);

/// Whether `serde_json` parses `s` as a JSON document.
pub uninterp spec fn json_wf(s: Seq<char>) -> bool;

/// The string-valued members of the top-level object of the document that
/// `s` parses to: each key of that object whose value is a JSON string,
/// mapped to that string. Empty when the document is not an object.
pub uninterp spec fn json_str_fields(s: Seq<char>) -> Map<Seq<char>, Seq<char>>;

/// The same map, read off a parsed value rather than off the text.
pub uninterp spec fn value_str_fields(v: serde_json::Value) -> Map<Seq<char>, Seq<char>>;

/// The characters of `v` when `v` is a JSON string, and nothing otherwise.
pub uninterp spec fn value_as_str(v: serde_json::Value) -> Option<Seq<char>>;

/// Relies on `serde_json::from_str::<Value>`: it returns `Ok` exactly on
/// valid JSON text, and the value it returns represents that text, so its
/// string-valued top-level members are those of the text.
#[verifier::external_body]
pub(crate) fn json_parse(s: &str) -> (r: Option<serde_json::Value>)
    ensures
        r is Some <==> json_wf(s@),
        r matches Some(v) ==> value_str_fields(v) == json_str_fields(s@),
{
    serde_json::from_str(s).ok()
}

/// Relies on `serde_json::Value::get` with a string index: on an object it
/// returns the value at that key, if any; on anything else it returns
/// `None`. So when `key` is a string-valued member of `v` the result is
/// that string, and when it is not, whatever comes back is no string.
#[verifier::external_body]
pub(crate) fn json_get<'a>(v: &'a serde_json::Value, key: &str) -> (r: Option<&'a serde_json::Value>)
    ensures
        r is None ==> !value_str_fields(*v).contains_key(key@),
        r matches Some(x) ==> value_as_str(*x) == (if value_str_fields(*v).contains_key(key@) {
            Some(value_str_fields(*v)[key@])
        } else {
            None::<Seq<char>>
        }),
{
    v.get(key)
}

/// Relies on `serde_json::Value::as_str`: it returns the characters of `v`
/// when `v` is a JSON string, and `None` otherwise.
#[verifier::external_body]
pub(crate) fn json_as_str(v: &serde_json::Value) -> (r: Option<String>)
    ensures
        r is Some <==> value_as_str(*v) is Some,
        r matches Some(s) ==> value_as_str(*v) == Some(s@),
{
    v.as_str().map(|s| s.to_owned())
}

} // verus!
