//! Verified core of a bridge between a host application and a native
//! generative-AI engine.
//!
//! The crate holds the decisions of the bridge and none of its side effects.
//! The host makes the native calls, delivers the events and serialises the
//! messages; this crate says which call to make, which events to deliver and
//! what a returned string means, and keeps the state that those decisions
//! rest on.
//!
//! - [`types`]: the records that cross the bridge.
//! - [`bridge`]: the state that the operations share.
//! - [`init`]: the one-time initialisation of the engine.
//! - [`availability`]: the capability probe.
//! - [`marshal`]: from a request to the arguments of the native call.
//! - [`decode`]: from the returned string to a typed result.
//! - [`registry`]: tool identifiers, and the tool calls made so far.
//! - [`stream`]: at most one stream at a time, and its events.
//! - [`laws`]: what holds across those operations.
//! - [`json`] and [`text`]: JSON values and strings, as far as the rest
//!   needs them.

pub mod availability;
pub mod bridge;
pub mod decode;
mod ident;
pub mod init;
pub mod json;
pub mod laws;
pub mod marshal;
pub mod registry;
pub mod stream;
pub mod text;
pub mod types;

pub use availability::{check_availability, reason_needed};
pub use bridge::{prepare_generate, Bridge, StreamState};
pub use decode::generate;
pub use init::{InitLatch, InitState, InitStep};
pub use marshal::{marshal_request, serialize_tools, NativeCall};
pub use registry::{tool_callback, RecordedToolCall, ToolAck, ToolRegistry};
pub use stream::{
    emit_event, emit_tool_calls, install_session, start_stream, stream, stream_chunk_callback,
    Emission, StreamLaunch, ERROR_SENTINEL,
};
pub use types::{
    AppleAIAvailability, AppleAIError, AppleAIGenerateRequest, AppleAIGenerateResult,
    AppleAIMessage, AppleAIStreamEvent, AppleAIStreamStart, AppleAIToolCall,
    AppleAIToolCallFunction, AppleAIToolDefinition,
};
