//! Wire types: the records that cross the bridge, and their mathematical
//! views.
//!
//! Each record has a view that replaces every string by its characters and
//! every vector by a sequence. JSON values stay as they are: they are opaque
//! and only ever carried through.

use vstd::prelude::*;

verus! {

/// The function that a tool call names, with its arguments as JSON text.
#[derive(Clone, Debug, PartialEq)]
pub struct AppleAIToolCallFunction {
    pub name: String,
    pub arguments: String,
}

pub struct ToolCallFunctionView {
    pub name: Seq<char>,
    pub arguments: Seq<char>,
}

impl View for AppleAIToolCallFunction {
    type V = ToolCallFunctionView;

    open spec fn view(&self) -> ToolCallFunctionView {
        ToolCallFunctionView { name: self.name@, arguments: self.arguments@ }
    }
}

impl DeepView for AppleAIToolCallFunction {
    type V = ToolCallFunctionView;

    open spec fn deep_view(&self) -> ToolCallFunctionView {
        self@
    }
}

/// A tool call: its id, the tag that says what kind of call it is, and the
/// function it names.
#[derive(Clone, Debug, PartialEq)]
pub struct AppleAIToolCall {
    pub id: String,
    pub call_type: String,
    pub function: AppleAIToolCallFunction,
}

pub struct ToolCallView {
    pub id: Seq<char>,
    pub call_type: Seq<char>,
    pub function: ToolCallFunctionView,
}

impl View for AppleAIToolCall {
    type V = ToolCallView;

    open spec fn view(&self) -> ToolCallView {
        ToolCallView { id: self.id@, call_type: self.call_type@, function: self.function@ }
    }
}

impl DeepView for AppleAIToolCall {
    type V = ToolCallView;

    open spec fn deep_view(&self) -> ToolCallView {
        self@
    }
}

/// One message of a conversation. `tool_call_id` links a tool-result message
/// to the call that it answers.
#[derive(Clone, Debug, PartialEq)]
pub struct AppleAIMessage {
    pub role: String,
    pub content: Option<String>,
    pub name: Option<String>,
    pub tool_call_id: Option<String>,
    pub tool_calls: Option<Vec<AppleAIToolCall>>,
}

pub struct MessageView {
    pub role: Seq<char>,
    pub content: Option<Seq<char>>,
    pub name: Option<Seq<char>>,
    pub tool_call_id: Option<Seq<char>>,
    pub tool_calls: Option<Seq<ToolCallView>>,
}

impl View for AppleAIMessage {
    type V = MessageView;

    open spec fn view(&self) -> MessageView {
        MessageView {
            role: self.role@,
            content: self.content.deep_view(),
            name: self.name.deep_view(),
            tool_call_id: self.tool_call_id.deep_view(),
            tool_calls: self.tool_calls.deep_view(),
        }
    }
}

impl DeepView for AppleAIMessage {
    type V = MessageView;

    open spec fn deep_view(&self) -> MessageView {
        self@
    }
}

/// A tool that the caller offers to the engine. `parameters` is a free-form
/// schema of the tool's arguments.
#[derive(Clone, Debug, PartialEq)]
pub struct AppleAIToolDefinition {
    pub name: String,
    pub description: Option<String>,
    pub parameters: serde_json::Value,
}

pub struct ToolDefinitionView {
    pub name: Seq<char>,
    pub description: Option<Seq<char>>,
    pub parameters: serde_json::Value,
}

impl View for AppleAIToolDefinition {
    type V = ToolDefinitionView;

    open spec fn view(&self) -> ToolDefinitionView {
        ToolDefinitionView {
            name: self.name@,
            description: self.description.deep_view(),
            parameters: self.parameters,
        }
    }
}

impl DeepView for AppleAIToolDefinition {
    type V = ToolDefinitionView;

    open spec fn deep_view(&self) -> ToolDefinitionView {
        self@
    }
}

/// A generation request. The order of `messages` is the order of the
/// conversation, and the order of `tools` decides the identifier that each
/// tool gets. `temperature_bits` holds the sampling temperature, a 64-bit
/// IEEE 754 number, as its bit pattern.
#[derive(Clone, Debug, PartialEq)]
pub struct AppleAIGenerateRequest {
    pub messages: Vec<AppleAIMessage>,
    pub tools: Option<Vec<AppleAIToolDefinition>>,
    pub schema: Option<serde_json::Value>,
    pub temperature_bits: Option<u64>,
    pub max_tokens: Option<i32>,
    pub stop_after_tool_calls: Option<bool>,
}

pub struct GenerateRequestView {
    pub messages: Seq<MessageView>,
    pub tools: Option<Seq<ToolDefinitionView>>,
    pub schema: Option<serde_json::Value>,
    pub temperature_bits: Option<u64>,
    pub max_tokens: Option<i32>,
    pub stop_after_tool_calls: Option<bool>,
}

impl View for AppleAIGenerateRequest {
    type V = GenerateRequestView;

    open spec fn view(&self) -> GenerateRequestView {
        GenerateRequestView {
            messages: self.messages.deep_view(),
            tools: self.tools.deep_view(),
            schema: self.schema,
            temperature_bits: self.temperature_bits,
            max_tokens: self.max_tokens,
            stop_after_tool_calls: self.stop_after_tool_calls,
        }
    }
}

/// What a single-shot generation produced.
#[derive(Clone, Debug, PartialEq)]
pub struct AppleAIGenerateResult {
    pub text: String,
    pub tool_calls: Option<Vec<AppleAIToolCall>>,
    pub object: Option<serde_json::Value>,
}

pub struct GenerateResultView {
    pub text: Seq<char>,
    pub tool_calls: Option<Seq<ToolCallView>>,
    pub object: Option<serde_json::Value>,
}

impl View for AppleAIGenerateResult {
    type V = GenerateResultView;

    open spec fn view(&self) -> GenerateResultView {
        GenerateResultView {
            text: self.text@,
            tool_calls: self.tool_calls.deep_view(),
            object: self.object,
        }
    }
}

/// Whether the engine can be used, and why not if it cannot.
#[derive(Clone, Debug, PartialEq)]
pub struct AppleAIAvailability {
    pub available: bool,
    pub reason: String,
}

pub struct AvailabilityView {
    pub available: bool,
    pub reason: Seq<char>,
}

impl View for AppleAIAvailability {
    type V = AvailabilityView;

    open spec fn view(&self) -> AvailabilityView {
        AvailabilityView { available: self.available, reason: self.reason@ }
    }
}

/// The acknowledgement of a started stream: its identifier and the name of
/// the channel on which its events are delivered.
#[derive(Clone, Debug, PartialEq)]
pub struct AppleAIStreamStart {
    pub stream_id: String,
    pub event_name: String,
}

pub struct StreamStartView {
    pub stream_id: Seq<char>,
    pub event_name: Seq<char>,
}

impl View for AppleAIStreamStart {
    type V = StreamStartView;

    open spec fn view(&self) -> StreamStartView {
        StreamStartView { stream_id: self.stream_id@, event_name: self.event_name@ }
    }
}

/// An event of a stream. `Done` and `Error` end the stream; `Text` and
/// `ToolCall` come before either.
#[derive(Clone, Debug, PartialEq)]
pub enum AppleAIStreamEvent {
    Text { text: String },
    ToolCall { tool_call_id: String, tool_name: String, args: serde_json::Value },
    Done,
    Error { message: String },
}

pub enum StreamEventView {
    Text { text: Seq<char> },
    ToolCall { tool_call_id: Seq<char>, tool_name: Seq<char>, args: serde_json::Value },
    Done,
    Error { message: Seq<char> },
}

impl View for AppleAIStreamEvent {
    type V = StreamEventView;

    open spec fn view(&self) -> StreamEventView {
        match self {
            AppleAIStreamEvent::Text { text } => StreamEventView::Text { text: text@ },
            AppleAIStreamEvent::ToolCall { tool_call_id, tool_name, args } => StreamEventView::ToolCall {
                tool_call_id: tool_call_id@,
                tool_name: tool_name@,
                args: *args,
            },
            AppleAIStreamEvent::Done => StreamEventView::Done,
            AppleAIStreamEvent::Error { message } => StreamEventView::Error { message: message@ },
        }
    }
}

impl DeepView for AppleAIStreamEvent {
    type V = StreamEventView;

    open spec fn deep_view(&self) -> StreamEventView {
        self@
    }
}

/// Why an operation of the bridge failed. Each variant carries a message for
/// the user.
#[derive(Debug, PartialEq)]
pub enum AppleAIError {
    /// The platform has no native engine.
    UnsupportedPlatform(String),
    /// The native engine reported a failure or returned nothing usable.
    NativeError(String),
    /// A stream is already active.
    StreamBusy(String),
    /// Input could not be turned into a payload, or output could not be read.
    InvalidPayload(String),
}

pub enum ErrorView {
    UnsupportedPlatform(Seq<char>),
    NativeError(Seq<char>),
    StreamBusy(Seq<char>),
    InvalidPayload(Seq<char>),
}

impl ErrorView {
    /// The message that the error carries.
    pub open spec fn message(self) -> Seq<char> {
        match self {
            ErrorView::UnsupportedPlatform(message) => message,
            ErrorView::NativeError(message) => message,
            ErrorView::StreamBusy(message) => message,
            ErrorView::InvalidPayload(message) => message,
        }
    }
}

impl View for AppleAIError {
    type V = ErrorView;

    open spec fn view(&self) -> ErrorView {
        match self {
            AppleAIError::UnsupportedPlatform(message) => ErrorView::UnsupportedPlatform(message@),
            AppleAIError::NativeError(message) => ErrorView::NativeError(message@),
            AppleAIError::StreamBusy(message) => ErrorView::StreamBusy(message@),
            AppleAIError::InvalidPayload(message) => ErrorView::InvalidPayload(message@),
        }
    }
}

impl DeepView for AppleAIError {
    type V = ErrorView;

    open spec fn deep_view(&self) -> ErrorView {
        self@
    }
}

impl AppleAIError {
    /// The error as shown to the user: its message, whatever the variant.
    pub fn to_string(&self) -> (text: String)
        ensures
            text@ == self@.message(),
    {
        match self {
            AppleAIError::UnsupportedPlatform(message) => message.clone(),
            AppleAIError::NativeError(message) => message.clone(),
            AppleAIError::StreamBusy(message) => message.clone(),
            AppleAIError::InvalidPayload(message) => message.clone(),
        }
    }
}

} // verus!
