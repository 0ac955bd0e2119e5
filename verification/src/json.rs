//! The little of JSON that token headers and payloads need.

use vstd::prelude::*;

verus! {

/// The string found under `name` in the JSON object that `document` holds, if
/// `document` is JSON, is an object, and holds a string under that name.
pub uninterp spec fn json_text_member(document: Seq<u8>, name: Seq<char>) -> Option<Seq<char>>;

/// The unsigned integer found under `name` in the JSON object that `document` holds, if
/// `document` is JSON, is an object, and holds a non-negative integer below 2^64 under
/// that name.
pub uninterp spec fn json_number_member(document: Seq<u8>, name: Seq<char>) -> Option<u64>;

/// The JSON string literal, quotes and escapes included, that stands for `text`.
pub uninterp spec fn json_string_literal(text: Seq<char>) -> Seq<char>;

/// Reads a string member of a JSON object with `serde_json`.
///
/// Trusted: the result is what `serde_json::from_slice` into a `serde_json::Value`,
/// followed by `Value::get` with `name` and `Value::as_str`, returns for these
/// arguments, with a parse error, a missing member and a member of another type all
/// mapped to `None`; this library calls that `json_text_member`.
#[verifier::external_body]
pub(crate) fn text_member(document: &[u8], name: &str) -> (member: Option<String>)
    ensures
        match member {
            Some(m) => json_text_member(document@, name@) == Some(m@),
            None => json_text_member(document@, name@).is_none(),
        },
{
    let value: serde_json::Value = serde_json::from_slice(document).ok()?;
    value.get(name)?.as_str().map(|s| s.to_owned())
}

/// Reads an unsigned integer member of a JSON object with `serde_json`.
///
/// Trusted: the result is what `serde_json::from_slice` into a `serde_json::Value`,
/// followed by `Value::get` with `name` and `Value::as_u64`, returns for these
/// arguments, with a parse error, a missing member and a member that is no unsigned
/// 64-bit integer all mapped to `None`; this library calls that `json_number_member`.
#[verifier::external_body]
pub(crate) fn number_member(document: &[u8], name: &str) -> (member: Option<u64>)
    ensures
        member == json_number_member(document@, name@),
{
    let value: serde_json::Value = serde_json::from_slice(document).ok()?;
    value.get(name)?.as_u64()
}

/// Writes `text` as a JSON string literal with `serde_json`.
///
/// Trusted: the result is what `serde_json::to_string` returns for a `str`, which
/// this library calls `json_string_literal`. Writing a `str` into memory has no way to
/// fail, so the error branch of the call is never taken.
#[verifier::external_body]
pub(crate) fn string_literal(text: &str) -> (literal: String)
    ensures
        literal@ == json_string_literal(text@),
{
    serde_json::to_string(text).unwrap_or_default()
}

} // verus!
