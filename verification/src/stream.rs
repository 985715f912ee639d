//! The stream coordinator.
//!
//! At most one stream is active at a time. A start that succeeds claims the
//! bridge; the chunk that ends the stream releases it. In between, every
//! chunk that the native engine hands over is turned into the events that the
//! host delivers on the stream's channel. A start that fails claims nothing.

use crate::bridge::{
    unsupported_message, unsupported_platform, Bridge, BridgeView, StreamState, StreamStateView,
};
use crate::ident::fresh_uuid;
use crate::marshal::{
    marshal_request, marshalled, names_after_marshal, outcome_view, NativeCall, NativeCallView,
};
use crate::registry::{RecordedToolCall, RecordedToolCallView, RegistryView, ToolRegistry};
use crate::text::join;
use crate::types::{
    AppleAIError, AppleAIGenerateRequest, AppleAIStreamEvent, AppleAIStreamStart, ErrorView,
    GenerateRequestView, StreamEventView, StreamStartView,
};
use vstd::prelude::*;

verus! {

/// The character that marks a chunk as an error message. A chunk of text
/// that begins with it cannot be told from an error.
pub const ERROR_SENTINEL: char = '\u{2}';

/// An event together with the channel on which the host delivers it.
/// Delivery is not acknowledged: a failure to deliver is dropped.
#[derive(Clone, Debug, PartialEq)]
pub struct Emission {
    pub event_name: String,
    pub event: AppleAIStreamEvent,
}

pub struct EmissionView {
    pub event_name: Seq<char>,
    pub event: StreamEventView,
}

impl View for Emission {
    type V = EmissionView;

    open spec fn view(&self) -> EmissionView {
        EmissionView { event_name: self.event_name@, event: self.event@ }
    }
}

impl DeepView for Emission {
    type V = EmissionView;

    open spec fn deep_view(&self) -> EmissionView {
        self@
    }
}

/// A stream that was started: the acknowledgement for the caller, and the
/// arguments of the native call that the host is to make, with the chunk
/// handler installed, on a thread of its own.
#[derive(Clone, Debug, PartialEq)]
pub struct StreamLaunch {
    pub start: AppleAIStreamStart,
    pub call: NativeCall,
}

pub struct StreamLaunchView {
    pub start: StreamStartView,
    pub call: NativeCallView,
}

impl View for StreamLaunch {
    type V = StreamLaunchView;

    open spec fn view(&self) -> StreamLaunchView {
        StreamLaunchView { start: self.start@, call: self.call@ }
    }
}

/// The name of the channel of the stream with the identifier `stream_id`.
pub open spec fn event_channel(stream_id: Seq<char>) -> Seq<char> {
    "apple-ai://stream/"@ + stream_id
}

/// The message of every `StreamBusy` error.
pub open spec fn busy_message() -> Seq<char> {
    "Another Apple Intelligence stream is already active"@
}

/// What an attempt to start a stream under the identifier `stream_id` gives.
///
/// - On a platform without an engine: `UnsupportedPlatform`.
/// - While a stream is active: `StreamBusy`.
/// - Otherwise what marshalling the request for a streaming call gives:
///   `InvalidPayload`, or the launch.
pub open spec fn start_result(
    bridge: BridgeView,
    request: GenerateRequestView,
    messages_json: Result<Seq<char>, Seq<char>>,
    stream_id: Seq<char>,
) -> Result<StreamLaunchView, ErrorView> {
    if !bridge.supported {
        Err(ErrorView::UnsupportedPlatform(unsupported_message()))
    } else if bridge.session is Some {
        Err(ErrorView::StreamBusy(busy_message()))
    } else {
        match marshalled(request, messages_json, true) {
            Ok(call) => Ok(
                StreamLaunchView {
                    start: StreamStartView { stream_id, event_name: event_channel(stream_id) },
                    call,
                },
            ),
            Err(error) => Err(error),
        }
    }
}

/// The bridge after an attempt to start a stream.
///
/// An attempt that is turned away, for want of an engine or because a stream
/// is active, changes nothing. Any other attempt marshals the request first.
///
/// - Where that succeeds, the stream starts: the session is installed, the
///   recorded tool calls are cleared, and the tool names are those of the
///   request and no others.
/// - Where that fails, no stream starts: the bridge stays idle and keeps its
///   recorded tool calls, and the tool names are what marshalling left.
pub open spec fn after_start(
    bridge: BridgeView,
    request: GenerateRequestView,
    messages_json: Result<Seq<char>, Seq<char>>,
    stream_id: Seq<char>,
) -> BridgeView {
    if !bridge.supported || bridge.session is Some {
        bridge
    } else if marshalled(request, messages_json, true) is Ok {
        BridgeView {
            session: Some(StreamStateView { event_name: event_channel(stream_id) }),
            registry: RegistryView {
                names: names_after_marshal(Map::empty(), request, messages_json),
                calls: Seq::empty(),
            },
            ..bridge
        }
    } else {
        BridgeView {
            registry: RegistryView {
                names: names_after_marshal(bridge.registry.names, request, messages_json),
                calls: bridge.registry.calls,
            },
            ..bridge
        }
    }
}

/// The event that reports a recorded tool call.
pub open spec fn tool_call_event(call: RecordedToolCallView) -> StreamEventView {
    StreamEventView::ToolCall {
        tool_call_id: call.call_id,
        tool_name: call.tool_name,
        args: call.args,
    }
}

/// The emissions that report the recorded tool calls on `channel`, one for
/// each call, in the order in which the calls were made.
pub open spec fn tool_call_emissions(channel: Seq<char>, calls: Seq<RecordedToolCallView>) -> Seq<
    EmissionView,
> {
    Seq::new(
        calls.len(),
        |i: int| EmissionView { event_name: channel, event: tool_call_event(calls[i]) },
    )
}

/// Whether a chunk carries an error message: it is not empty and begins with
/// the sentinel.
pub open spec fn is_error_chunk(chunk: Seq<char>) -> bool {
    chunk.len() > 0 && chunk[0] == ERROR_SENTINEL
}

/// Whether a chunk ends the stream: the end-of-stream chunk does, and so
/// does an error chunk.
pub open spec fn is_terminal(chunk: Option<Seq<char>>) -> bool {
    match chunk {
        None => true,
        Some(text) => is_error_chunk(text),
    }
}

/// The event that ends the stream at a terminal chunk: `Done` at the end of
/// the stream, `Error` with the characters after the sentinel at an error
/// chunk.
pub open spec fn terminal_event(chunk: Option<Seq<char>>) -> StreamEventView {
    match chunk {
        None => StreamEventView::Done,
        Some(text) => StreamEventView::Error { message: text.skip(1) },
    }
}

/// What the host is to deliver for a chunk. `None` is the end-of-stream
/// chunk.
///
/// - No stream active: nothing.
/// - A terminal chunk: every recorded tool call, then the event that ends
///   the stream, `Done` or `Error`.
/// - An empty chunk: nothing.
/// - Any other chunk: `Text` with the whole chunk.
pub open spec fn chunk_emissions(bridge: BridgeView, chunk: Option<Seq<char>>) -> Seq<EmissionView> {
    match bridge.session {
        None => Seq::empty(),
        Some(state) => if is_terminal(chunk) {
            tool_call_emissions(state.event_name, bridge.registry.calls).push(
                EmissionView { event_name: state.event_name, event: terminal_event(chunk) },
            )
        } else if chunk->0.len() == 0 {
            Seq::empty()
        } else {
            seq![
                EmissionView {
                    event_name: state.event_name,
                    event: StreamEventView::Text { text: chunk->0 },
                },
            ]
        },
    }
}

/// The bridge after a chunk. A terminal chunk releases the bridge and
/// empties the recorded tool calls; any other chunk, and any chunk while no
/// stream is active, changes nothing.
pub open spec fn after_chunk(bridge: BridgeView, chunk: Option<Seq<char>>) -> BridgeView {
    if bridge.session is Some && is_terminal(chunk) {
        BridgeView {
            session: None,
            registry: RegistryView { names: bridge.registry.names, calls: Seq::empty() },
            ..bridge
        }
    } else {
        bridge
    }
}

/// The error that a start attempt gets while a stream is active.
pub fn stream_busy() -> (error: AppleAIError)
    ensures
        error@ == ErrorView::StreamBusy(busy_message()),
{
    AppleAIError::StreamBusy("Another Apple Intelligence stream is already active".to_owned())
}

/// Addresses an event to the channel of a stream.
pub fn emit_event(state: &StreamState, event: AppleAIStreamEvent) -> (emission: Emission)
    ensures
        emission@ == (EmissionView { event_name: state@.event_name, event: event@ }),
{
    Emission { event_name: state.event_name.clone(), event }
}

/// Takes the recorded tool calls out of the registry and addresses one
/// `ToolCall` event for each to the channel of a stream, in the order in
/// which the calls were made. The registry keeps its names and no call.
pub fn emit_tool_calls(state: &StreamState, registry: &mut ToolRegistry) -> (emissions: Vec<Emission>)
    ensures
        emissions.deep_view() == tool_call_emissions(state@.event_name, old(registry)@.calls),
        final(registry)@.names == old(registry)@.names,
        final(registry)@.calls == Seq::<RecordedToolCallView>::empty(),
{
    let drained = registry.drain();
    let mut emissions: Vec<Emission> = Vec::new();
    let mut index: usize = 0;
    while index < drained.len()
        invariant
            index <= drained.len(),
            emissions.len() == index,
            forall|i: int|
                0 <= i < index ==> (#[trigger] emissions[i])@ == (EmissionView {
                    event_name: state@.event_name,
                    event: tool_call_event(drained[i]@),
                }),
        decreases drained.len() - index,
    {
        let call: &RecordedToolCall = &drained[index];
        let event = AppleAIStreamEvent::ToolCall {
            tool_call_id: call.call_id.clone(),
            tool_name: call.tool_name.clone(),
            args: call.args.clone(),
        };
        emissions.push(emit_event(state, event));
        index += 1;
    }
    emissions
}

/// The bridge once the session of a stream is installed for a marshalled
/// call: the bridge is active on the stream's channel, no tool call is
/// recorded, and the tool names are kept only where the call declares tools,
/// whose names marshalling has just registered.
pub open spec fn after_install(
    bridge: BridgeView,
    call: NativeCallView,
    stream_id: Seq<char>,
) -> BridgeView {
    BridgeView {
        session: Some(StreamStateView { event_name: event_channel(stream_id) }),
        registry: RegistryView {
            names: if call.register_tool_callback {
                bridge.registry.names
            } else {
                Map::empty()
            },
            calls: Seq::empty(),
        },
        ..bridge
    }
}

/// Installs the session of the stream `stream_id`, whose request was
/// marshalled into `call`, and returns the launch. The bridge becomes
/// [`after_install`].
pub fn install_session(bridge: &mut Bridge, call: NativeCall, stream_id: String) -> (launch:
    StreamLaunch)
    ensures
        launch@ == (StreamLaunchView {
            start: StreamStartView { stream_id: stream_id@, event_name: event_channel(stream_id@) },
            call: call@,
        }),
        final(bridge)@ == after_install(old(bridge)@, call@, stream_id@),
{
    if !call.register_tool_callback {
        bridge.registry.clear_names();
    }
    bridge.registry.clear_calls();
    let event_name = join("apple-ai://stream/", stream_id.as_str());
    bridge.session = Some(StreamState { event_name: event_name.clone() });
    StreamLaunch { start: AppleAIStreamStart { stream_id, event_name }, call }
}

/// Starts a stream under a given identifier.
///
/// The result is exactly [`start_result`] and the bridge becomes
/// [`after_start`]. In particular a second start while a stream is active is
/// turned away with `StreamBusy` at once, before its payload is looked at, and
/// changes nothing; and a start that fails with `InvalidPayload` leaves the
/// bridge idle, so that the caller may try again.
///
/// A stream is started only once the engine is initialised: where the
/// platform has an engine, the bridge's latch must be ready.
pub fn start_stream(
    bridge: &mut Bridge,
    request: &AppleAIGenerateRequest,
    messages_json: Result<String, String>,
    stream_id: String,
) -> (launch: Result<StreamLaunch, AppleAIError>)
    requires
        old(bridge)@.engine_ready(),
    ensures
        match launch {
            Ok(started) => start_result(
                old(bridge)@,
                request@,
                outcome_view(messages_json),
                stream_id@,
            ) == Ok::<StreamLaunchView, ErrorView>(started@),
            Err(error) => start_result(
                old(bridge)@,
                request@,
                outcome_view(messages_json),
                stream_id@,
            ) == Err::<StreamLaunchView, ErrorView>(error@),
        },
        final(bridge)@ == after_start(
            old(bridge)@,
            request@,
            outcome_view(messages_json),
            stream_id@,
        ),
{
    if !bridge.supported {
        return Err(unsupported_platform());
    }
    if bridge.session.is_some() {
        return Err(stream_busy());
    }
    match marshal_request(&mut bridge.registry, request, messages_json, true) {
        Ok(call) => Ok(install_session(bridge, call, stream_id)),
        Err(error) => Err(error),
    }
}

/// Starts a stream under a fresh identifier.
///
/// The identifier is random, so the contract says what holds whichever was
/// drawn: result and bridge are those of [`start_stream`] for some
/// identifier, and a launch carries an identifier of 36 characters. An
/// identifier is drawn only for a stream that starts.
///
/// A stream is started only once the engine is initialised: where the
/// platform has an engine, the bridge's latch must be ready.
pub fn stream(
    bridge: &mut Bridge,
    request: &AppleAIGenerateRequest,
    messages_json: Result<String, String>,
) -> (launch: Result<StreamLaunch, AppleAIError>)
    requires
        old(bridge)@.engine_ready(),
    ensures
        exists|stream_id: Seq<char>|
            {
                &&& final(bridge)@ == #[trigger] after_start(
                    old(bridge)@,
                    request@,
                    outcome_view(messages_json),
                    stream_id,
                )
                &&& match launch {
                    Ok(started) => start_result(
                        old(bridge)@,
                        request@,
                        outcome_view(messages_json),
                        stream_id,
                    ) == Ok::<StreamLaunchView, ErrorView>(started@),
                    Err(error) => start_result(
                        old(bridge)@,
                        request@,
                        outcome_view(messages_json),
                        stream_id,
                    ) == Err::<StreamLaunchView, ErrorView>(error@),
                }
            },
        launch matches Ok(started) ==> started@.start.stream_id.len() == 36,
{
    if !bridge.supported {
        return Err(unsupported_platform());
    }
    if bridge.session.is_some() {
        return Err(stream_busy());
    }
    match marshal_request(&mut bridge.registry, request, messages_json, true) {
        Ok(call) => {
            let stream_id = fresh_uuid();
            let ghost drawn = stream_id@;
            let launch = install_session(bridge, call, stream_id);
            assert(bridge@ == after_start(
                old(bridge)@,
                request@,
                outcome_view(messages_json),
                drawn,
            ));
            Ok(launch)
        },
        Err(error) => Err(error),
    }
}

/// Handles a chunk from the native engine. `None` is the end-of-stream
/// chunk; any other chunk is its text.
///
/// The emissions are exactly [`chunk_emissions`], in the order in which the
/// host is to deliver them, and the bridge becomes [`after_chunk`]. Once a
/// stream has ended, later chunks give nothing until another stream starts.
pub fn stream_chunk_callback(bridge: &mut Bridge, chunk: Option<String>) -> (emissions: Vec<Emission>)
    ensures
        emissions.deep_view() == chunk_emissions(old(bridge)@, chunk.deep_view()),
        final(bridge)@ == after_chunk(old(bridge)@, chunk.deep_view()),
{
    let state = match &bridge.session {
        Some(state) => StreamState { event_name: state.event_name.clone() },
        None => {
            return Vec::new();
        },
    };
    match chunk {
        None => {
            let mut emissions = emit_tool_calls(&state, &mut bridge.registry);
            emissions.push(emit_event(&state, AppleAIStreamEvent::Done));
            bridge.session = None;
            emissions
        },
        Some(text) => {
            let length: usize = text.as_str().unicode_len();
            if length == 0 {
                return Vec::new();
            }
            if text.as_str().get_char(0) == ERROR_SENTINEL {
                let message = text.as_str().substring_char(1, length).to_owned();
                let mut emissions = emit_tool_calls(&state, &mut bridge.registry);
                emissions.push(emit_event(&state, AppleAIStreamEvent::Error { message }));
                bridge.session = None;
                emissions
            } else {
                let mut emissions: Vec<Emission> = Vec::new();
                emissions.push(emit_event(&state, AppleAIStreamEvent::Text { text }));
                emissions
            }
        },
    }
}

} // verus!
