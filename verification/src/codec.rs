//! The calls that leave the library: base64 and JSON, and the three std
//! string functions that vstd does not specify.
//!
//! Nothing here is proved. Each contract states what the function called is
//! known to do, and everything else in the library is proved from these.

use vstd::prelude::*;
use vstd::utf8::decode_utf8;
use vstd::utf8::valid_utf8;

verus! {

/// A JSON document, as `serde_json` holds it. The library carries such
/// values and never looks inside one.
#[verifier::external_type_specification]
#[verifier::external_body]
pub struct ExJsonValue(serde_json::Value);

/// Why `serde_json` refused a text or a value.
#[verifier::external_type_specification]
#[verifier::external_body]
pub struct ExJsonError(serde_json::Error);

/// Why `base64` refused a text.
#[verifier::external_type_specification]
#[verifier::external_body]
pub struct ExDecodeError(base64::DecodeError);

/// The JSON value that `serde_json::to_value` makes of a string.
pub uninterp spec fn json_string(text: Seq<char>) -> serde_json::Value;

/// The JSON value that `serde_json::from_str` reads from a text, if it reads one.
pub uninterp spec fn json_parsed(text: Seq<char>) -> Option<serde_json::Value>;

/// The bytes that `base64::decode` reads from a text in the standard
/// alphabet with padding, if it reads any.
pub uninterp spec fn base64_decoded(text: Seq<char>) -> Option<Seq<u8>>;

/// What `str::trim` leaves of a text: the text without leading and trailing
/// white space.
pub uninterp spec fn trimmed(text: Seq<char>) -> Seq<char>;

/// `serde_json::to_value` on a `String`. Serialising a string cannot fail
/// (the serialiser wraps a copy of it in `Value::String`), so the result is
/// `Ok`, and it is the value that `json_string` names.
#[verifier::external_body]
pub(crate) fn to_value(s: String) -> (r: Result<serde_json::Value, serde_json::Error>)
    ensures
        r is Ok,
        r matches Ok(v) ==> v == json_string(s@),
{
    serde_json::to_value(s)
}

/// `serde_json::from_str` at type `Value`: the document that the text
/// holds, or the parser's error when it holds none. The outcome depends on
/// the text alone.
#[verifier::external_body]
pub(crate) fn from_str(s: &str) -> (r: Result<serde_json::Value, serde_json::Error>)
    ensures
        r matches Ok(v) ==> json_parsed(s@) == Some(v),
        r is Err ==> json_parsed(s@) is None,
{
    serde_json::from_str(s)
}

/// `Clone::clone` of `serde_json::Value`, which is derived: the copy is
/// equal to the value copied.
#[verifier::external_body]
pub(crate) fn clone_value(v: &serde_json::Value) -> (r: serde_json::Value)
    ensures
        r == *v,
{
    v.clone()
}

/// `base64::decode`: the decoded bytes, or the decoder's error. The outcome
/// depends on the text alone. The decoder panics only where the length of
/// its input plus seven overflows `usize`, which no string slice reaches.
#[verifier::external_body]
pub(crate) fn base64_decode(s: &str) -> (r: Result<Vec<u8>, base64::DecodeError>)
    ensures
        r matches Ok(bytes) ==> base64_decoded(s@) == Some(bytes@),
        r is Err ==> base64_decoded(s@) is None,
{
    base64::decode(s)
}

/// `String::from_utf8`: the string that the bytes encode, and `None` exactly
/// when they are not valid UTF-8.
#[verifier::external_body]
pub(crate) fn string_from_utf8(bytes: Vec<u8>) -> (r: Option<String>)
    ensures
        r is Some <==> valid_utf8(bytes@),
        r matches Some(s) ==> s@ == decode_utf8(bytes@),
{
    String::from_utf8(bytes).ok()
}

/// `str::trim`: the slice without leading and trailing white space.
#[verifier::external_body]
pub(crate) fn trim(s: &str) -> (r: &str)
    ensures
        r@ == trimmed(s@),
{
    s.trim()
}

} // verus!
