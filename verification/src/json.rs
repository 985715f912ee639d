//! JSON values, as `serde_json` represents them.
//!
//! A [`serde_json::Value`] is opaque to the verifier. Everything this crate
//! says about one is said through the names declared here. Each name stands
//! for the result of one `serde_json` function, which depends on nothing but
//! its arguments; the function beside it makes the call, and its contract is
//! believed, not proved.

use vstd::prelude::*;

verus! {

#[verifier::external_type_specification]
#[verifier::external_body]
pub struct ExJsonValue(serde_json::Value);

#[verifier::external_type_specification]
#[verifier::external_body]
pub struct ExJsonError(serde_json::Error);

/// `Value::clone` is derived: the copy equals the value that was copied.
pub assume_specification[ <serde_json::Value as Clone>::clone ](value: &serde_json::Value) -> (copy:
    serde_json::Value)
    ensures
        copy == *value,
;

/// The outcome of reading `text` as one JSON document.
pub uninterp spec fn json_parsed(text: Seq<char>) -> Result<serde_json::Value, serde_json::Error>;

/// The outcome of writing `value` as compact JSON text.
pub uninterp spec fn json_encoded(value: serde_json::Value) -> Result<Seq<char>, serde_json::Error>;

/// The message that a `serde_json` error displays.
pub uninterp spec fn json_error_text(error: serde_json::Error) -> Seq<char>;

/// The member stored under `key`, if `value` is an object that has one.
pub uninterp spec fn json_member(value: serde_json::Value, key: Seq<char>) -> Option<
    serde_json::Value,
>;

/// The characters of `value`, if it is a string.
pub uninterp spec fn json_text(value: serde_json::Value) -> Option<Seq<char>>;

/// The elements of `value`, if it is an array.
pub uninterp spec fn json_items(value: serde_json::Value) -> Option<Seq<serde_json::Value>>;

/// The JSON number `n`.
pub uninterp spec fn json_of_number(n: u64) -> serde_json::Value;

/// The JSON string with the characters `text`.
pub uninterp spec fn json_of_text(text: Seq<char>) -> serde_json::Value;

/// The JSON string with the characters of `text`, or null when there is
/// none.
pub uninterp spec fn json_of_optional_text(text: Option<Seq<char>>) -> serde_json::Value;

/// The JSON array of `items`, in their order.
pub uninterp spec fn json_of_items(items: Seq<serde_json::Value>) -> serde_json::Value;

/// The JSON object that collecting the key-value pairs `members` gives.
pub uninterp spec fn json_of_members(
    members: Seq<(Seq<char>, serde_json::Value)>,
) -> serde_json::Value;

/// The members of an object under construction, keys seen as characters.
pub open spec fn member_views(members: Seq<(String, serde_json::Value)>) -> Seq<
    (Seq<char>, serde_json::Value),
> {
    members.map_values(|member: (String, serde_json::Value)| (member.0@, member.1))
}

/// Calls `serde_json::from_str` for a `Value`. The outcome is a function of
/// the text alone and is named [`json_parsed`].
#[verifier::external_body]
pub(crate) fn parse_json(text: &str) -> (parsed: Result<serde_json::Value, serde_json::Error>)
    ensures
        parsed == json_parsed(text@),
{
    serde_json::from_str::<serde_json::Value>(text)
}

/// Calls `serde_json::to_string` on a `Value`. The outcome is a function of
/// the value alone and is named [`json_encoded`].
#[verifier::external_body]
pub(crate) fn encode_json(value: &serde_json::Value) -> (encoded: Result<String, serde_json::Error>)
    ensures
        match encoded {
            Ok(text) => json_encoded(*value) == Ok::<Seq<char>, serde_json::Error>(text@),
            Err(error) => json_encoded(*value) == Err::<Seq<char>, serde_json::Error>(error),
        },
{
    serde_json::to_string(value)
}

/// Calls `to_string` on a `serde_json::Error`, which writes what the error
/// displays. The text is named [`json_error_text`].
#[verifier::external_body]
pub(crate) fn json_error_message(error: &serde_json::Error) -> (message: String)
    ensures
        message@ == json_error_text(*error),
{
    error.to_string()
}

/// Calls `Value::get` with a string key and copies what it finds. The result
/// is named [`json_member`].
#[verifier::external_body]
pub(crate) fn member_of(value: &serde_json::Value, key: &str) -> (member: Option<serde_json::Value>)
    ensures
        member == json_member(*value, key@),
{
    value.get(key).cloned()
}

/// Calls `Value::as_str` and copies the string. The result is named
/// [`json_text`].
#[verifier::external_body]
pub(crate) fn text_of(value: &serde_json::Value) -> (text: Option<String>)
    ensures
        text.deep_view() == json_text(*value),
{
    value.as_str().map(str::to_owned)
}

/// Calls `Value::as_array` and copies the elements. The result is named
/// [`json_items`].
#[verifier::external_body]
pub(crate) fn items_of(value: &serde_json::Value) -> (items: Option<Vec<serde_json::Value>>)
    ensures
        match items {
            Some(list) => json_items(*value) == Some(list@),
            None => json_items(*value) is None,
        },
{
    value.as_array().cloned()
}

/// Calls `Value::from` on a `u64`. The value is named [`json_of_number`].
#[verifier::external_body]
pub(crate) fn number_value(n: u64) -> (value: serde_json::Value)
    ensures
        value == json_of_number(n),
{
    serde_json::Value::from(n)
}

/// Calls `Value::from` on a string slice. The value is named
/// [`json_of_text`].
#[verifier::external_body]
pub(crate) fn text_value(text: &str) -> (value: serde_json::Value)
    ensures
        value == json_of_text(text@),
{
    serde_json::Value::from(text)
}

/// Calls `Value::from` on an optional string. The value is named
/// [`json_of_optional_text`].
#[verifier::external_body]
pub(crate) fn optional_text_value(text: &Option<String>) -> (value: serde_json::Value)
    ensures
        value == json_of_optional_text(text.deep_view()),
{
    serde_json::Value::from(text.clone())
}

/// Calls `Value::from` on a vector of values. The value is named
/// [`json_of_items`].
#[verifier::external_body]
pub(crate) fn array_value(items: Vec<serde_json::Value>) -> (value: serde_json::Value)
    ensures
        value == json_of_items(items@),
{
    serde_json::Value::from(items)
}

/// Collects key-value pairs into a `Value`, for which `serde_json` builds
/// the object that holds them. The value is named [`json_of_members`].
#[verifier::external_body]
pub(crate) fn object_value(members: Vec<(String, serde_json::Value)>) -> (value: serde_json::Value)
    ensures
        value == json_of_members(member_views(members@)),
{
    members.into_iter().collect::<serde_json::Value>()
}

} // verus!
