//! Reading members out of JSON documents.

use vstd::prelude::*;

verus! {

/// The boolean that the JSON document `text` holds under `key`: `Some` of it where
/// `text` is one JSON object, that object has a member `key`, and the member is
/// `true` or `false`; `None` for every other text.
///
/// Which texts are JSON, and how an object with a repeated key reads, is for the
/// parser to say; this is the name of its answer.
pub uninterp spec fn json_bool_member(text: Seq<char>, key: Seq<char>) -> Option<bool>;

/// Parses `text` with `serde_json::from_str` into a `serde_json::Value`, looks
/// `key` up with `Value::get` and reads the member with `Value::as_bool`.
///
/// Trusted: that the three calls end without a panic on every text, and that
/// what they give depends on `text` and `key` alone. `from_str` reports a text
/// that is no JSON, or nests deeper than its limit, as an error, which gives
/// `None` here; `get` with a string gives `None` on anything but an object that
/// has the key; `as_bool` gives `None` on anything but a boolean.
#[verifier::external_body]
pub(crate) fn read_bool_member(text: &str, key: &str) -> (member: Option<bool>)
    ensures
        member == json_bool_member(text@, key@),
{
    match serde_json::from_str::<serde_json::Value>(text) {
        Ok(document) => document.get(key).and_then(serde_json::Value::as_bool),
        Err(_) => None,
    }
}

} // verus!
