//! Trusted views into JSON text.
//!
//! The adapters never take a parsed JSON value apart themselves: everything
//! they need from a frame is whether it parses at all and what its top-level
//! string fields hold. Both are functions of the text alone, so they are
//! named below and the wrappers state their results through those names.

use vstd::prelude::*;

verus! {

/// Whether serde_json parses this text as a single JSON document.
pub uninterp spec fn json_ok(s: Seq<char>) -> bool;

/// The string value of the named top-level field of the document this text
/// parses to: `None` when the document is no object, lacks the field, or
/// holds a non-string value there.
pub uninterp spec fn json_str_field(s: Seq<char>, key: Seq<char>) -> Option<Seq<char>>;

/// Relies on `serde_json::from_str::<Value>`: whether the text parses as one
/// JSON document. Parsing depends on the characters alone.
#[verifier::external_body]
pub fn text_is_json(s: &str) -> (r: bool)
    ensures
        r == json_ok(s@),
{
    serde_json::from_str::<serde_json::Value>(s).is_ok()
}

/// Relies on `serde_json::from_str::<Value>` and `Value::get`: reads the
/// string value of the named top-level field, `None` when the text does not
/// parse, the document is no object, the field is absent, or its value is no
/// string. The result depends on the text and the key alone.
#[verifier::external_body]
pub fn text_string_field(s: &str, key: &str) -> (r: Option<String>)
    ensures
        !json_ok(s@) ==> r is None,
        json_ok(s@) ==> match r {
            Some(v) => json_str_field(s@, key@) == Some(v@),
            None => json_str_field(s@, key@) is None,
        },
{
    match serde_json::from_str::<serde_json::Value>(s) {
        Ok(v) => v.get(key).and_then(|t| t.as_str()).map(|t| t.to_string()),
        Err(_) => None,
    }
}

} // verus!
