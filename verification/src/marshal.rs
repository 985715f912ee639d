//! Marshalling: from a typed request to the arguments of the native call.
//!
//! The native call takes its structured arguments as JSON text in C strings,
//! so every text is checked for the character that would end it early. The
//! host serialises the messages; the tools and the schema are serialised
//! here.

use crate::json::{
    array_value, encode_json, json_encoded, json_error_message, json_error_text, json_of_items,
    json_of_members, json_of_number, json_of_optional_text, json_of_text, member_views,
    number_value, object_value, optional_text_value, text_value,
};
use crate::registry::{registered_names, ToolRegistry};
use crate::text::contains_nul;
use crate::types::{
    AppleAIError, AppleAIGenerateRequest, AppleAIToolDefinition, ErrorView, GenerateRequestView,
    ToolDefinitionView,
};
use vstd::prelude::*;

verus! {

/// The arguments of one native generation call.
///
/// `temperature_bits` is the bit pattern of a 64-bit IEEE 754 number. A
/// streaming call is made with the chunk handler installed, any other call
/// without it. Where `register_tool_callback` is set, the host installs the
/// tool handler before it makes the call.
#[derive(Clone, Debug, PartialEq)]
pub struct NativeCall {
    pub messages_json: String,
    pub tools_json: Option<String>,
    pub schema_json: Option<String>,
    pub temperature_bits: u64,
    pub max_tokens: i32,
    pub stream: bool,
    pub stop_after_tool_calls: bool,
    pub register_tool_callback: bool,
}

pub struct NativeCallView {
    pub messages_json: Seq<char>,
    pub tools_json: Option<Seq<char>>,
    pub schema_json: Option<Seq<char>>,
    pub temperature_bits: u64,
    pub max_tokens: i32,
    pub stream: bool,
    pub stop_after_tool_calls: bool,
    pub register_tool_callback: bool,
}

impl View for NativeCall {
    type V = NativeCallView;

    open spec fn view(&self) -> NativeCallView {
        NativeCallView {
            messages_json: self.messages_json@,
            tools_json: self.tools_json.deep_view(),
            schema_json: self.schema_json.deep_view(),
            temperature_bits: self.temperature_bits,
            max_tokens: self.max_tokens,
            stream: self.stream,
            stop_after_tool_calls: self.stop_after_tool_calls,
            register_tool_callback: self.register_tool_callback,
        }
    }
}

/// Whether a request declares at least one tool.
pub open spec fn has_tools(tools: Option<Seq<ToolDefinitionView>>) -> bool {
    tools matches Some(list) && list.len() > 0
}

/// The entry of the tools payload for the tool at position `index`, counted
/// from zero: its identifier `index + 1`, its name, its description or null,
/// and its parameters.
pub open spec fn tool_entry(index: int, tool: ToolDefinitionView) -> serde_json::Value {
    json_of_members(
        seq![
            ("id"@, json_of_number((index + 1) as u64)),
            ("name"@, json_of_text(tool.name)),
            ("description"@, json_of_optional_text(tool.description)),
            ("parameters"@, tool.parameters),
        ],
    )
}

/// The tools payload: the array of the tools' entries, in declaration order.
pub open spec fn tools_payload(tools: Seq<ToolDefinitionView>) -> serde_json::Value {
    json_of_items(Seq::new(tools.len(), |index: int| tool_entry(index, tools[index])))
}

/// The text of a JSON value, or the error that says why it has none.
pub open spec fn encoded_or_invalid(value: serde_json::Value) -> Result<Seq<char>, ErrorView> {
    match json_encoded(value) {
        Ok(text) => Ok(text),
        Err(error) => Err(ErrorView::InvalidPayload(json_error_text(error))),
    }
}

/// The serialised tools of a request: none when it declares no tool, else
/// the text of the tools payload.
pub open spec fn serialized_tools(tools: Option<Seq<ToolDefinitionView>>) -> Result<
    Option<Seq<char>>,
    ErrorView,
> {
    if has_tools(tools) {
        match encoded_or_invalid(tools_payload(tools->0)) {
            Ok(text) => Ok(Some(text)),
            Err(error) => Err(error),
        }
    } else {
        Ok(None)
    }
}

/// The serialised output schema of a request, if it has one.
pub open spec fn serialized_schema(schema: Option<serde_json::Value>) -> Result<
    Option<Seq<char>>,
    ErrorView,
> {
    match schema {
        Some(value) => match encoded_or_invalid(value) {
            Ok(text) => Ok(Some(text)),
            Err(error) => Err(error),
        },
        None => Ok(None),
    }
}

/// Whether an optional text holds the character that ends a C string.
pub open spec fn has_nul(text: Option<Seq<char>>) -> bool {
    text matches Some(chars) && chars.contains('\0')
}

/// The native call for a request whose texts are all at hand, or the error
/// for the first text that a C string cannot hold.
pub open spec fn assembled(
    request: GenerateRequestView,
    messages_json: Seq<char>,
    tools_json: Option<Seq<char>>,
    schema_json: Option<Seq<char>>,
    streaming: bool,
) -> Result<NativeCallView, ErrorView> {
    if messages_json.contains('\0') {
        Err(ErrorView::InvalidPayload("Messages contained null byte"@))
    } else if has_nul(tools_json) {
        Err(ErrorView::InvalidPayload("Tools contained null byte"@))
    } else if has_nul(schema_json) {
        Err(ErrorView::InvalidPayload("Schema contained null byte"@))
    } else {
        Ok(
            NativeCallView {
                messages_json,
                tools_json,
                schema_json,
                temperature_bits: match request.temperature_bits {
                    Some(bits) => bits,
                    None => 0,
                },
                max_tokens: match request.max_tokens {
                    Some(limit) => limit,
                    None => 0,
                },
                stream: streaming,
                stop_after_tool_calls: match request.stop_after_tool_calls {
                    Some(stop) => stop,
                    None => true,
                },
                register_tool_callback: has_tools(request.tools),
            },
        )
    }
}

/// What marshalling a request gives. `messages_json` is the outcome of
/// serialising the messages: the text, or the serialiser's message.
///
/// Serialisation errors come first, in the order messages, tools, schema;
/// then the texts are checked in the same order.
pub open spec fn marshalled(
    request: GenerateRequestView,
    messages_json: Result<Seq<char>, Seq<char>>,
    streaming: bool,
) -> Result<NativeCallView, ErrorView> {
    match messages_json {
        Err(message) => Err(ErrorView::InvalidPayload(message)),
        Ok(messages) => match serialized_tools(request.tools) {
            Err(error) => Err(error),
            Ok(tools_json) => match serialized_schema(request.schema) {
                Err(error) => Err(error),
                Ok(schema_json) => assembled(request, messages, tools_json, schema_json, streaming),
            },
        },
    }
}

/// The tool names after marshalling: those of the request's tools, if the
/// messages were serialised and the request declares a tool; else the names
/// from before.
pub open spec fn names_after_marshal(
    names: Map<u64, Seq<char>>,
    request: GenerateRequestView,
    messages_json: Result<Seq<char>, Seq<char>>,
) -> Map<u64, Seq<char>> {
    if messages_json is Ok && has_tools(request.tools) {
        registered_names(request.tools->0)
    } else {
        names
    }
}

/// The characters of a serialisation outcome.
pub open spec fn outcome_view(outcome: Result<String, String>) -> Result<Seq<char>, Seq<char>> {
    match outcome {
        Ok(text) => Ok(text@),
        Err(message) => Err(message@),
    }
}

/// Writes a JSON value as text. A value that cannot be written gives
/// `InvalidPayload` with the serialiser's message.
pub fn encode_or_invalid(value: &serde_json::Value) -> (encoded: Result<String, AppleAIError>)
    ensures
        match encoded {
            Ok(text) => encoded_or_invalid(*value) == Ok::<Seq<char>, ErrorView>(text@),
            Err(error) => encoded_or_invalid(*value) == Err::<Seq<char>, ErrorView>(error@),
        },
{
    match encode_json(value) {
        Ok(text) => Ok(text),
        Err(error) => Err(AppleAIError::InvalidPayload(json_error_message(&error))),
    }
}

/// Builds the payload entry of the tool at position `index`.
fn build_tool_entry(index: usize, tool: &AppleAIToolDefinition) -> (entry: serde_json::Value)
    requires
        index < usize::MAX,
    ensures
        entry == tool_entry(index as int, tool@),
{
    let mut members: Vec<(String, serde_json::Value)> = Vec::new();
    members.push(("id".to_owned(), number_value((index + 1) as u64)));
    members.push(("name".to_owned(), text_value(tool.name.as_str())));
    members.push(("description".to_owned(), optional_text_value(&tool.description)));
    members.push(("parameters".to_owned(), tool.parameters.clone()));
    assert(member_views(members@) =~= seq![
        ("id"@, json_of_number((index + 1) as u64)),
        ("name"@, json_of_text(tool@.name)),
        ("description"@, json_of_optional_text(tool@.description)),
        ("parameters"@, tool@.parameters),
    ]);
    object_value(members)
}

/// Serialises the tools of a request and registers them.
///
/// A request without tools, or with an empty list, gives `Ok(None)` and
/// leaves the registry as it was. Otherwise the registry's names are
/// replaced by those of `tools`, the tool at position `i` under the
/// identifier `i + 1`, and the result is the text of the tools payload, which
/// carries the same identifiers.
pub fn serialize_tools(registry: &mut ToolRegistry, tools: &Option<Vec<AppleAIToolDefinition>>) -> (json:
    Result<Option<String>, AppleAIError>)
    ensures
        match json {
            Ok(text) => serialized_tools(tools.deep_view()) == Ok::<Option<Seq<char>>, ErrorView>(
                text.deep_view(),
            ),
            Err(error) => serialized_tools(tools.deep_view()) == Err::<Option<Seq<char>>, ErrorView>(
                error@,
            ),
        },
        final(registry)@.names == if has_tools(tools.deep_view()) {
            registered_names(tools.deep_view()->0)
        } else {
            old(registry)@.names
        },
        final(registry)@.calls == old(registry)@.calls,
{
    match tools {
        None => Ok(None),
        Some(list) => {
            if list.len() == 0 {
                return Ok(None);
            }
            registry.register(list);
            let mut entries: Vec<serde_json::Value> = Vec::new();
            let mut index: usize = 0;
            while index < list.len()
                invariant
                    index <= list.len(),
                    entries.len() == index,
                    forall|i: int| 0 <= i < index ==> entries[i] == tool_entry(i, list[i]@),
                decreases list.len() - index,
            {
                entries.push(build_tool_entry(index, &list[index]));
                index += 1;
            }
            assert(entries@ =~= Seq::new(
                list.deep_view().len(),
                |i: int| tool_entry(i, list.deep_view()[i]),
            ));
            let payload = array_value(entries);
            match encode_or_invalid(&payload) {
                Ok(text) => Ok(Some(text)),
                Err(error) => Err(error),
            }
        },
    }
}

/// Serialises the output schema of a request, if it has one.
pub fn serialize_schema(schema: &Option<serde_json::Value>) -> (json: Result<
    Option<String>,
    AppleAIError,
>)
    ensures
        match json {
            Ok(text) => serialized_schema(*schema) == Ok::<Option<Seq<char>>, ErrorView>(
                text.deep_view(),
            ),
            Err(error) => serialized_schema(*schema) == Err::<Option<Seq<char>>, ErrorView>(error@),
        },
{
    match schema {
        None => Ok(None),
        Some(value) => match encode_or_invalid(value) {
            Ok(text) => Ok(Some(text)),
            Err(error) => Err(error),
        },
    }
}

/// Whether an optional text holds the character that ends a C string.
fn optional_contains_nul(text: &Option<String>) -> (found: bool)
    ensures
        found == has_nul(text.deep_view()),
{
    match text {
        Some(chars) => contains_nul(chars.as_str()),
        None => false,
    }
}

/// Marshals a request into the arguments of a native call.
///
/// `messages_json` is the outcome of serialising the request's messages,
/// which the host does: the text, or the serialiser's message. `streaming`
/// says whether the call is to stream.
///
/// The result is exactly [`marshalled`]: `InvalidPayload` for a failed
/// serialisation and for a text with an embedded terminator, else the call.
/// The registry's names become [`names_after_marshal`]; its recorded calls
/// stay.
pub fn marshal_request(
    registry: &mut ToolRegistry,
    request: &AppleAIGenerateRequest,
    messages_json: Result<String, String>,
    streaming: bool,
) -> (call: Result<NativeCall, AppleAIError>)
    ensures
        match call {
            Ok(native) => marshalled(request@, outcome_view(messages_json), streaming) == Ok::<
                NativeCallView,
                ErrorView,
            >(native@),
            Err(error) => marshalled(request@, outcome_view(messages_json), streaming) == Err::<
                NativeCallView,
                ErrorView,
            >(error@),
        },
        final(registry)@.names == names_after_marshal(
            old(registry)@.names,
            request@,
            outcome_view(messages_json),
        ),
        final(registry)@.calls == old(registry)@.calls,
{
    let messages = match messages_json {
        Ok(text) => text,
        Err(message) => {
            return Err(AppleAIError::InvalidPayload(message));
        },
    };
    let tools_json = match serialize_tools(registry, &request.tools) {
        Ok(text) => text,
        Err(error) => {
            return Err(error);
        },
    };
    let schema_json = match serialize_schema(&request.schema) {
        Ok(text) => text,
        Err(error) => {
            return Err(error);
        },
    };
    if contains_nul(messages.as_str()) {
        return Err(AppleAIError::InvalidPayload("Messages contained null byte".to_owned()));
    }
    if optional_contains_nul(&tools_json) {
        return Err(AppleAIError::InvalidPayload("Tools contained null byte".to_owned()));
    }
    if optional_contains_nul(&schema_json) {
        return Err(AppleAIError::InvalidPayload("Schema contained null byte".to_owned()));
    }
    let register_tool_callback = match &request.tools {
        Some(list) => list.len() > 0,
        None => false,
    };
    Ok(
        NativeCall {
            messages_json: messages,
            tools_json,
            schema_json,
            temperature_bits: match request.temperature_bits {
                Some(bits) => bits,
                None => 0,
            },
            max_tokens: match request.max_tokens {
                Some(limit) => limit,
                None => 0,
            },
            stream: streaming,
            stop_after_tool_calls: match request.stop_after_tool_calls {
                Some(stop) => stop,
                None => true,
            },
            register_tool_callback,
        },
    )
}

} // verus!
