//! JSON documents, read by `serde_json`. Nothing in this file is proved:
//! each item states what the outside function is taken to do.

use vstd::prelude::*;

verus! {

/// A parsed JSON value. Its inside is not visible to proofs.
#[verifier::external_type_specification]
#[verifier::external_body]
pub struct ExValue(serde_json::Value);

/// The error that `serde_json` gives for a text that is not JSON.
#[verifier::external_type_specification]
#[verifier::external_body]
pub struct ExJsonError(serde_json::Error);

/// The document that `serde_json::from_str` reads from `text`, or `None`
/// where it reports an error.
pub uninterp spec fn parsed_document(text: Seq<char>) -> Option<serde_json::Value>;

/// What `serde_json::Value::get` finds in `value` under the key `key`:
/// the member of that name where `value` is an object that has one.
pub uninterp spec fn member_of(value: serde_json::Value, key: Seq<char>) -> Option<
    serde_json::Value,
>;

/// What `serde_json::Value::as_str` gives for `value`: its text where it
/// is a JSON string.
pub uninterp spec fn string_of(value: serde_json::Value) -> Option<Seq<char>>;

/// Calls `serde_json::from_str` for a `serde_json::Value`. The result is
/// taken to depend on the text alone: it is `Ok` with the document exactly
/// where `parsed_document` names one.
#[verifier::external_body]
pub(crate) fn parse_document(text: &str) -> (parsed: Result<serde_json::Value, serde_json::Error>)
    ensures
        match parsed {
            Ok(document) => parsed_document(text@) == Some(document),
            Err(_) => parsed_document(text@) is None,
        },
{
    serde_json::from_str::<serde_json::Value>(text)
}

/// Calls `serde_json::Value::get` with a string key. The result is the
/// member that `member_of` names, borrowed from `value`.
#[verifier::external_body]
pub(crate) fn member<'a>(value: &'a serde_json::Value, key: &str) -> (found: Option<
    &'a serde_json::Value,
>)
    ensures
        match found {
            Some(inner) => member_of(*value, key@) == Some(*inner),
            None => member_of(*value, key@) is None,
        },
{
    value.get(key)
}

/// Calls `serde_json::Value::as_str`. The result is the text that
/// `string_of` names, borrowed from `value`.
#[verifier::external_body]
pub(crate) fn string<'a>(value: &'a serde_json::Value) -> (text: Option<&'a str>)
    ensures
        match text {
            Some(s) => string_of(*value) == Some(s@),
            None => string_of(*value) is None,
        },
{
    value.as_str()
}

} // verus!
