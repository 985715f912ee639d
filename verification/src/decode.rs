//! Decoding: from the string that a native generation call returned to a
//! typed result.
//!
//! A string that begins with `"Error: "` reports a failure of the native
//! engine. Any other string is a JSON document with up to three members:
//! `text`, `toolCalls` and `object`.

use crate::json::{
    items_of, json_error_message, json_error_text, json_items, json_member, json_parsed, json_text,
    member_of, parse_json, text_of,
};
use crate::text::{strip_prefix, without_prefix};
use crate::types::{
    AppleAIError, AppleAIGenerateResult, AppleAIToolCall, AppleAIToolCallFunction, ErrorView,
    GenerateResultView, ToolCallFunctionView, ToolCallView,
};
use vstd::prelude::*;

verus! {

/// The string under `key`, if `value` is an object that holds a string
/// there.
pub open spec fn member_text(value: serde_json::Value, key: Seq<char>) -> Option<Seq<char>> {
    match json_member(value, key) {
        Some(member) => json_text(member),
        None => None,
    }
}

/// The function descriptor that a JSON value stands for.
///
/// A descriptor is an object with the strings `name` and `arguments`; other
/// members are ignored. It may also come in positional form, as an array of
/// exactly those two strings in that order. Anything else is malformed.
pub open spec fn decoded_function(value: serde_json::Value) -> Option<ToolCallFunctionView> {
    match json_items(value) {
        Some(items) => if items.len() == 2 {
            match (json_text(items[0]), json_text(items[1])) {
                (Some(name), Some(arguments)) => Some(ToolCallFunctionView { name, arguments }),
                _ => None,
            }
        } else {
            None
        },
        None => match (member_text(value, "name"@), member_text(value, "arguments"@)) {
            (Some(name), Some(arguments)) => Some(ToolCallFunctionView { name, arguments }),
            _ => None,
        },
    }
}

/// The tool call that a JSON value stands for.
///
/// A tool call is an object with the strings `id` and `type` and the
/// descriptor `function`; other members are ignored. It may also come in
/// positional form, as an array of exactly those three in that order.
/// Anything else is malformed.
pub open spec fn decoded_tool_call(value: serde_json::Value) -> Option<ToolCallView> {
    match json_items(value) {
        Some(items) => if items.len() == 3 {
            match (json_text(items[0]), json_text(items[1]), decoded_function(items[2])) {
                (Some(id), Some(call_type), Some(function)) => Some(
                    ToolCallView { id, call_type, function },
                ),
                _ => None,
            }
        } else {
            None
        },
        None => match (
            member_text(value, "id"@),
            member_text(value, "type"@),
            json_member(value, "function"@),
        ) {
            (Some(id), Some(call_type), Some(function)) => match decoded_function(function) {
                Some(function) => Some(ToolCallView { id, call_type, function }),
                None => None,
            },
            _ => None,
        },
    }
}

/// The tool calls that a JSON value stands for: it must be an array, and
/// each of its elements a tool call. One malformed element spoils the whole.
pub open spec fn decoded_tool_calls(value: serde_json::Value) -> Option<Seq<ToolCallView>> {
    match json_items(value) {
        Some(items) => if forall|i: int| 0 <= i < items.len() ==> decoded_tool_call(items[i]) is Some {
            Some(Seq::new(items.len(), |i: int| decoded_tool_call(items[i])->0))
        } else {
            None
        },
        None => None,
    }
}

/// The result that a parsed document stands for. `text` defaults to the
/// empty string; `toolCalls` is absent when missing or malformed; `object`
/// is passed on as it is.
pub open spec fn result_of(parsed: serde_json::Value) -> GenerateResultView {
    GenerateResultView {
        text: match member_text(parsed, "text"@) {
            Some(text) => text,
            None => Seq::empty(),
        },
        tool_calls: match json_member(parsed, "toolCalls"@) {
            Some(calls) => decoded_tool_calls(calls),
            None => None,
        },
        object: json_member(parsed, "object"@),
    }
}

/// What a native generation call's return value decodes to.
///
/// - No string at all: `NativeError`.
/// - A string that begins with `"Error: "`: `NativeError` with the rest of
///   the string as its message.
/// - A string that is not JSON: `InvalidPayload` with the parser's message.
/// - Any other string: the result that the document stands for.
pub open spec fn generated(raw: Option<Seq<char>>) -> Result<GenerateResultView, ErrorView> {
    match raw {
        None => Err(ErrorView::NativeError("generation returned null"@)),
        Some(text) => match without_prefix(text, "Error: "@) {
            Some(message) => Err(ErrorView::NativeError(message)),
            None => match json_parsed(text) {
                Ok(parsed) => Ok(result_of(parsed)),
                Err(error) => Err(ErrorView::InvalidPayload(json_error_text(error))),
            },
        },
    }
}

/// Reads the string under `key`.
fn read_member_text(value: &serde_json::Value, key: &str) -> (text: Option<String>)
    ensures
        text.deep_view() == member_text(*value, key@),
{
    match member_of(value, key) {
        Some(member) => text_of(&member),
        None => None,
    }
}

/// Puts a descriptor together from its two parts, if both are there.
fn function_from_parts(name: Option<String>, arguments: Option<String>) -> (function: Option<
    AppleAIToolCallFunction,
>)
    ensures
        function.deep_view() == match (name.deep_view(), arguments.deep_view()) {
            (Some(name), Some(arguments)) => Some(ToolCallFunctionView { name, arguments }),
            _ => None,
        },
{
    match name {
        Some(name) => match arguments {
            Some(arguments) => Some(AppleAIToolCallFunction { name, arguments }),
            None => None,
        },
        None => None,
    }
}

/// Decodes a function descriptor. `None` when the value is malformed.
pub fn decode_function(value: &serde_json::Value) -> (function: Option<AppleAIToolCallFunction>)
    ensures
        function.deep_view() == decoded_function(*value),
{
    match items_of(value) {
        Some(items) => {
            if items.len() == 2 {
                function_from_parts(text_of(&items[0]), text_of(&items[1]))
            } else {
                None
            }
        },
        None => function_from_parts(
            read_member_text(value, "name"),
            read_member_text(value, "arguments"),
        ),
    }
}

/// Puts a tool call together from its three parts, if all are there.
fn tool_call_from_parts(
    id: Option<String>,
    call_type: Option<String>,
    function: Option<AppleAIToolCallFunction>,
) -> (call: Option<AppleAIToolCall>)
    ensures
        call.deep_view() == match (id.deep_view(), call_type.deep_view(), function.deep_view()) {
            (Some(id), Some(call_type), Some(function)) => Some(
                ToolCallView { id, call_type, function },
            ),
            _ => None,
        },
{
    match id {
        Some(id) => match call_type {
            Some(call_type) => match function {
                Some(function) => Some(AppleAIToolCall { id, call_type, function }),
                None => None,
            },
            None => None,
        },
        None => None,
    }
}

/// Decodes a tool call. `None` when the value is malformed.
pub fn decode_tool_call(value: &serde_json::Value) -> (call: Option<AppleAIToolCall>)
    ensures
        call.deep_view() == decoded_tool_call(*value),
{
    match items_of(value) {
        Some(items) => {
            if items.len() == 3 {
                tool_call_from_parts(
                    text_of(&items[0]),
                    text_of(&items[1]),
                    decode_function(&items[2]),
                )
            } else {
                None
            }
        },
        None => {
            let function = match member_of(value, "function") {
                Some(member) => decode_function(&member),
                None => None,
            };
            tool_call_from_parts(
                read_member_text(value, "id"),
                read_member_text(value, "type"),
                function,
            )
        },
    }
}

/// Decodes a list of tool calls. `None` when the value is not an array or
/// one of its elements is malformed.
pub fn decode_tool_calls(value: &serde_json::Value) -> (calls: Option<Vec<AppleAIToolCall>>)
    ensures
        calls.deep_view() == decoded_tool_calls(*value),
{
    let items = match items_of(value) {
        Some(items) => items,
        None => {
            return None;
        },
    };
    let mut calls: Vec<AppleAIToolCall> = Vec::new();
    let mut index: usize = 0;
    while index < items.len()
        invariant
            index <= items.len(),
            calls.len() == index,
            json_items(*value) == Some(items@),
            forall|i: int|
                0 <= i < index ==> decoded_tool_call(items[i]) == Some((#[trigger] calls[i])@),
        decreases items.len() - index,
    {
        match decode_tool_call(&items[index]) {
            Some(call) => {
                calls.push(call);
            },
            None => {
                return None;
            },
        }
        index += 1;
    }
    assert forall|i: int| 0 <= i < items@.len() implies decoded_tool_call(items@[i]) is Some by {
        assert(decoded_tool_call(items@[i]) == Some(calls[i]@));
    }
    Some(calls)
}

/// Builds the result that a parsed document stands for.
pub fn result_from_json(parsed: &serde_json::Value) -> (result: AppleAIGenerateResult)
    ensures
        result@ == result_of(*parsed),
{
    let text = match read_member_text(parsed, "text") {
        Some(text) => text,
        None => String::new(),
    };
    let tool_calls = match member_of(parsed, "toolCalls") {
        Some(calls) => decode_tool_calls(&calls),
        None => None,
    };
    let object = member_of(parsed, "object");
    AppleAIGenerateResult { text, tool_calls, object }
}

/// Completes a single-shot generation: decodes what the native call
/// returned. `raw` is the returned string, or `None` where the call returned
/// no string at all. The result is exactly [`generated`].
pub fn generate(raw: Option<&str>) -> (result: Result<AppleAIGenerateResult, AppleAIError>)
    ensures
        match result {
            Ok(value) => generated(raw.deep_view()) == Ok::<GenerateResultView, ErrorView>(value@),
            Err(error) => generated(raw.deep_view()) == Err::<GenerateResultView, ErrorView>(error@),
        },
{
    let text = match raw {
        Some(text) => text,
        None => {
            return Err(AppleAIError::NativeError("generation returned null".to_owned()));
        },
    };
    match strip_prefix(text, "Error: ") {
        Some(message) => Err(AppleAIError::NativeError(message)),
        None => match parse_json(text) {
            Ok(parsed) => Ok(result_from_json(&parsed)),
            Err(error) => Err(AppleAIError::InvalidPayload(json_error_message(&error))),
        },
    }
}

} // verus!
