//! The JSON document type of serde_json, and the calls into serde_json that
//! the library makes.
use vstd::prelude::*;

verus! {

/// serde_json's document type, carried through the library as an opaque value.
#[verifier::external_type_specification]
#[verifier::external_body]
pub struct ExValue(serde_json::Value);

/// The compact encoding serde_json gives a document, if it gives one.
pub uninterp spec fn json_encoding(v: serde_json::Value) -> Option<Seq<u8>>;

/// The document serde_json reads from bytes, if they hold exactly one.
pub uninterp spec fn json_document(b: Seq<u8>) -> Option<serde_json::Value>;

/// The document serde_json reads from the text of bytes (invalid UTF-8
/// replaced by U+FFFD), if that text holds exactly one.
pub uninterp spec fn json_text_document(b: Seq<u8>) -> Option<serde_json::Value>;

/// The member of an object document under a key.
pub uninterp spec fn json_member(v: serde_json::Value, key: Seq<char>) -> Option<
    serde_json::Value,
>;

/// Whether a document is an object.
pub uninterp spec fn json_is_object(v: serde_json::Value) -> bool;

/// Relies on serde_json::to_vec: the compact encoding of a document.
#[verifier::external_body]
pub(crate) fn encode(v: &serde_json::Value) -> (r: Option<Vec<u8>>)
    ensures
        match r {
            Some(b) => json_encoding(*v) == Some(b@),
            None => json_encoding(*v).is_none(),
        },
{
    serde_json::to_vec(v).ok()
}

/// Relies on serde_json::from_slice: reads one document, with nothing but
/// whitespace after it.
#[verifier::external_body]
pub(crate) fn decode(b: &[u8]) -> (r: Option<serde_json::Value>)
    ensures
        r == json_document(b@),
{
    serde_json::from_slice::<serde_json::Value>(b).ok()
}

/// Relies on serde_json::from_str, on the text that
/// `String::from_utf8_lossy` makes of the bytes.
#[verifier::external_body]
pub(crate) fn decode_text(b: &[u8]) -> (r: Option<serde_json::Value>)
    ensures
        r == json_text_document(b@),
{
    serde_json::from_str::<serde_json::Value>(&String::from_utf8_lossy(b)).ok()
}

/// Relies on serde_json::Value::get with a string key, and on Clone.
#[verifier::external_body]
pub(crate) fn member(v: &serde_json::Value, key: &str) -> (r: Option<serde_json::Value>)
    ensures
        r == json_member(*v, key@),
{
    v.get(key).cloned()
}

/// Relies on serde_json::Value::is_object.
#[verifier::external_body]
pub(crate) fn is_object(v: &serde_json::Value) -> (r: bool)
    ensures
        r == json_is_object(*v),
{
    v.is_object()
}

/// The indented text serde_json writes for a document, if it writes one.
pub uninterp spec fn json_pretty_text(v: serde_json::Value) -> Option<Seq<char>>;

/// Relies on serde_json::to_string_pretty: the indented text of a document.
#[verifier::external_body]
pub(crate) fn pretty(v: &serde_json::Value) -> (r: Option<String>)
    ensures
        match r {
            Some(t) => json_pretty_text(*v) == Some(t@),
            None => json_pretty_text(*v).is_none(),
        },
{
    serde_json::to_string_pretty(v).ok()
}

} // verus!
