//! JSON documents, read and written by serde_json.

use vstd::prelude::*;

verus! {

/// The text of an optional string.
pub open spec fn opt_view(o: Option<String>) -> Option<Seq<char>> {
    match o {
        Some(s) => Some(s@),
        None => None,
    }
}

/// The text of an optional member of a document that may not parse.
pub open spec fn member_view(o: Option<Option<String>>) -> Option<Option<Seq<char>>> {
    match o {
        Some(m) => Some(opt_view(m)),
        None => None,
    }
}

/// The compact JSON text of the document `body`, or `None` where `body` is
/// no JSON document.
pub uninterp spec fn json_compact(body: Seq<u8>) -> Option<Seq<char>>;

/// The compact JSON text of member `key` of the document `body`: `None`
/// where `body` is no JSON document, `Some(None)` where it is one without
/// that member (an array or a scalar has no members).
pub uninterp spec fn json_member(body: Seq<u8>, key: Seq<char>) -> Option<Option<Seq<char>>>;

/// Relies on serde_json::from_slice into a `serde_json::Value`, and on that
/// type's `Display`, which writes the value as compact JSON.
#[verifier::external_body]
pub(crate) fn compact_json(body: &Vec<u8>) -> (r: Option<String>)
    ensures
        opt_view(r) == json_compact(body@),
{
    serde_json::from_slice::<serde_json::Value>(body).ok().map(|v| v.to_string())
}

/// Relies on serde_json::from_slice into a `serde_json::Value`, on
/// `Value::get` with a string key (a member of an object, `None` for any
/// other value), and on `Display` of the member, which writes compact JSON.
#[verifier::external_body]
pub(crate) fn member_json(body: &Vec<u8>, key: &str) -> (r: Option<Option<String>>)
    ensures
        member_view(r) == json_member(body@, key@),
{
    serde_json::from_slice::<serde_json::Value>(body).ok().map(|v| v.get(key).map(|m| m.to_string()))
}

} // verus!
