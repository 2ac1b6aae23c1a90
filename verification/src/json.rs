//! The JSON encodings of rule lists, delegated to `serde_json`.

use vstd::prelude::*;

verus! {

/// `serde_json::Error`, carried through as an opaque value.
#[verifier::external_type_specification]
#[verifier::external_body]
pub struct ExJsonError(serde_json::Error);

/// The character views of a list of strings.
pub open spec fn string_views(v: Seq<String>) -> Seq<Seq<char>> {
    v.map_values(|s: String| s@)
}

/// What `serde_json::from_str::<Vec<String>>` makes of `text`: the array
/// of strings it denotes, or `None` where it is no JSON array of strings.
pub uninterp spec fn json_string_array(text: Seq<char>) -> Option<Seq<Seq<char>>>;

/// The text `serde_json::to_string` makes of a list of strings.
pub uninterp spec fn json_compact(items: Seq<Seq<char>>) -> Seq<char>;

/// The text `serde_json::to_string_pretty` makes of a list of strings.
pub uninterp spec fn json_pretty(items: Seq<Seq<char>>) -> Seq<char>;

/// `serde_json::from_str::<Vec<String>>`: it succeeds exactly where the
/// text is a JSON array of strings, and then yields those strings.
#[verifier::external_body]
pub(crate) fn parse_string_array(text: &str) -> (r: Result<Vec<String>, serde_json::Error>)
    ensures
        r is Ok <==> json_string_array(text@) is Some,
        r matches Ok(v) ==> string_views(v@) == json_string_array(text@)->0,
{
    serde_json::from_str::<Vec<String>>(text)
}

/// `serde_json::to_string` on a list of strings; its output is named by
/// `json_compact`. It succeeds: serde_json reports an error only where a
/// `Serialize` impl fails or a map has non-string keys, and a list of
/// strings has neither.
#[verifier::external_body]
pub(crate) fn to_compact_json(items: &Vec<String>) -> (r: Result<String, serde_json::Error>)
    ensures
        r is Ok,
        r matches Ok(s) ==> s@ == json_compact(string_views(items@)),
{
    serde_json::to_string(items)
}

/// `serde_json::to_string_pretty` on a list of strings; its output is
/// named by `json_pretty`. It succeeds, for the reason given at
/// `to_compact_json`.
#[verifier::external_body]
pub(crate) fn to_pretty_json(items: &Vec<String>) -> (r: Result<String, serde_json::Error>)
    ensures
        r is Ok,
        r matches Ok(s) ==> s@ == json_pretty(string_views(items@)),
{
    serde_json::to_string_pretty(items)
}

} // verus!
