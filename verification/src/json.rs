//! The boundary to `serde_json` and to std's UTF-8 check: what the decoders
//! take on trust about parsing.

use vstd::prelude::*;
use vstd::utf8::decode_utf8;
use vstd::utf8::valid_utf8;

verus! {

/// `serde_json::Value`, a parsed JSON value: carried from the parser to the
/// lookups and never looked into.
#[verifier::external_type_specification]
#[verifier::external_body]
pub struct ExJsonValue(serde_json::Value);

/// `serde_json::Error`, what the parser reports of a text that is not JSON.
#[verifier::external_type_specification]
#[verifier::external_body]
pub struct ExJsonError(serde_json::Error);

/// `core::str::Utf8Error`, what std reports of bytes that are not UTF-8.
#[verifier::external_type_specification]
#[verifier::external_body]
pub struct ExUtf8Error(core::str::Utf8Error);

/// The members of a JSON value that are strings, by key: the members of an
/// object whose values are JSON strings, and no member for any other value.
pub uninterp spec fn string_members(value: serde_json::Value) -> Map<Seq<char>, Seq<char>>;

/// What `serde_json::from_str` makes of a text: `None` where it reports an
/// error, else the string members of the value it returns.
pub uninterp spec fn parsed_members(text: Seq<char>) -> Option<Map<Seq<char>, Seq<char>>>;

/// `core::str::from_utf8`: succeeds exactly on well-formed UTF-8, and the
/// string it returns holds the characters that the bytes encode.
#[verifier::external_body]
pub(crate) fn utf8_text(bytes: &[u8]) -> (text: Result<&str, core::str::Utf8Error>)
    ensures
        text is Ok <==> valid_utf8(bytes@),
        text matches Ok(s) ==> s@ == decode_utf8(bytes@),
{
    core::str::from_utf8(bytes)
}

/// `serde_json::from_str` at type `serde_json::Value`: a function of the
/// text alone, whose outcome `parsed_members` names.
#[verifier::external_body]
pub(crate) fn parse_value(text: &str) -> (parsed: Result<serde_json::Value, serde_json::Error>)
    ensures
        match parsed {
            Ok(value) => parsed_members(text@) == Some(string_members(value)),
            Err(_) => parsed_members(text@) is None,
        },
{
    serde_json::from_str(text)
}

/// Indexing a `serde_json::Value` by a key, then `Value::as_str`: the text
/// of the member under `key` where the value is an object that has such a
/// member and the member is a JSON string, and `None` in every other case.
#[verifier::external_body]
pub(crate) fn string_member<'a>(value: &'a serde_json::Value, key: &str) -> (found: Option<&'a str>)
    ensures
        match found {
            Some(text) => string_members(*value).contains_key(key@) && string_members(
                *value,
            )[key@] == text@,
            None => !string_members(*value).contains_key(key@),
        },
{
    value[key].as_str()
}

} // verus!
