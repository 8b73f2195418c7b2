//! JSON text of string values.
//!
//! Request bodies are JSON objects. The object itself is written out by this
//! crate; how the characters of a string are quoted and escaped is left to
//! `serde_json`.

use vstd::prelude::*;

verus! {

/// The JSON text that `serde_json` writes for a string: the characters of
/// `text` between double quotes, escaped where JSON asks for it.
pub uninterp spec fn json_string(text: Seq<char>) -> Seq<char>;

/// Renders `text` as a JSON string.
///
/// Trusted: the body hands `text` to `serde_json::Value` as a string value
/// and formats it with that type's `Display`, which writes compact JSON and
/// cannot fail on a string. The contract claims no more than that the output
/// is a function of the characters of `text`; that function is `json_string`.
#[verifier::external_body]
pub(crate) fn quote(text: &str) -> (quoted: String)
    ensures
        quoted@ == json_string(text@),
{
    serde_json::Value::from(text).to_string()
}

} // verus!
