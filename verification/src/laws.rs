//! What holds of the bridge as a whole: laws that relate several operations,
//! stated over the same spec functions as the operations' own contracts and
//! proved here once and for all.

use crate::bridge::BridgeView;
use crate::marshal::{has_tools, marshalled, names_after_marshal};
use crate::registry::{recorded_call, registered_names, resolved_name};
use crate::stream::{
    after_chunk, after_start, busy_message, chunk_emissions, event_channel, is_error_chunk,
    is_terminal, start_result, terminal_event, tool_call_event, EmissionView, StreamLaunchView,
};
use crate::types::{
    ErrorView, GenerateRequestView, StreamEventView, StreamStartView, ToolDefinitionView,
};
use vstd::prelude::*;

verus! {

/// The bridge after a run of chunks, handled one after the other.
pub open spec fn after_chunks(bridge: BridgeView, chunks: Seq<Option<Seq<char>>>) -> BridgeView
    decreases chunks.len(),
{
    if chunks.len() == 0 {
        bridge
    } else {
        after_chunks(after_chunk(bridge, chunks[0]), chunks.drop_first())
    }
}

/// Everything that the host is to deliver for a run of chunks, in order.
pub open spec fn emissions_of_chunks(bridge: BridgeView, chunks: Seq<Option<Seq<char>>>) -> Seq<
    EmissionView,
>
    decreases chunks.len(),
{
    if chunks.len() == 0 {
        Seq::empty()
    } else {
        chunk_emissions(bridge, chunks[0]) + emissions_of_chunks(
            after_chunk(bridge, chunks[0]),
            chunks.drop_first(),
        )
    }
}

/// The `Text` events for a run of chunks on `channel`: one for each chunk
/// that carries text, in order. End-of-stream chunks and empty chunks give
/// none.
pub open spec fn text_emissions(channel: Seq<char>, chunks: Seq<Option<Seq<char>>>) -> Seq<
    EmissionView,
>
    decreases chunks.len(),
{
    if chunks.len() == 0 {
        Seq::empty()
    } else {
        let first = match chunks[0] {
            Some(text) => if text.len() > 0 {
                seq![EmissionView { event_name: channel, event: StreamEventView::Text { text } }]
            } else {
                Seq::empty()
            },
            None => Seq::empty(),
        };
        first + text_emissions(channel, chunks.drop_first())
    }
}

/// Registering `tools` gives exactly the identifiers from 1 to their number.
pub proof fn law_identifiers_are_dense(tools: Seq<ToolDefinitionView>, tool_id: u64)
    ensures
        registered_names(tools).contains_key(tool_id) <==> 1 <= tool_id <= tools.len(),
{
}

/// Identifiers follow the order of declaration: after `tools` are
/// registered, the identifier `k` resolves to the name of the `k`-th tool,
/// and a call that the engine makes with `k` is recorded under that name.
pub proof fn law_identifier_resolves_to_declared_name(
    tools: Seq<ToolDefinitionView>,
    k: u64,
    args_json: Option<Seq<char>>,
    call_id: Seq<char>,
)
    requires
        1 <= k <= tools.len(),
    ensures
        resolved_name(registered_names(tools), k) == tools[k - 1].name,
        recorded_call(registered_names(tools), k, args_json, call_id).tool_name == tools[k
            - 1].name,
{
}

/// Where the names of the declared tools are pairwise distinct, as a
/// request is to have them, no two identifiers resolve to the same name: the
/// registry tells the tools apart as the request does.
pub proof fn law_distinct_names_get_distinct_identifiers(
    tools: Seq<ToolDefinitionView>,
    j: u64,
    k: u64,
)
    requires
        forall|a: int, b: int|
            0 <= a < b < tools.len() ==> #[trigger] tools[a].name != #[trigger] tools[b].name,
        1 <= j <= tools.len(),
        1 <= k <= tools.len(),
        j != k,
    ensures
        resolved_name(registered_names(tools), j) != resolved_name(registered_names(tools), k),
{
}

/// Marshalling a request that declares tools leaves a registry from which
/// the name of every declared tool is recovered by its identifier, whatever
/// the registry held before. This holds as soon as the messages were
/// serialised, also where a later step of marshalling fails.
pub proof fn law_marshalled_tools_resolve(
    names: Map<u64, Seq<char>>,
    request: GenerateRequestView,
    messages: Seq<char>,
    index: int,
)
    requires
        has_tools(request.tools),
        0 <= index < request.tools->0.len(),
        index < u64::MAX,
    ensures
        resolved_name(
            names_after_marshal(names, request, Ok(messages)),
            (index + 1) as u64,
        ) == request.tools->0[index].name,
{
}

/// A stream that starts registers the tools of its request and nothing
/// else: no name of an earlier request is left, and no recorded call.
pub proof fn law_stream_start_forgets_earlier_tools(
    bridge: BridgeView,
    request: GenerateRequestView,
    messages_json: Result<Seq<char>, Seq<char>>,
    stream_id: Seq<char>,
    tool_id: u64,
)
    requires
        bridge.supported,
        bridge.session is None,
        marshalled(request, messages_json, true) is Ok,
    ensures
        ({
            let names = after_start(bridge, request, messages_json, stream_id).registry.names;
            if has_tools(request.tools) {
                names.contains_key(tool_id) <==> 1 <= tool_id <= request.tools->0.len()
            } else {
                !names.contains_key(tool_id)
            }
        }),
        after_start(bridge, request, messages_json, stream_id).registry.calls.len() == 0,
{
}

/// Marshalling fails with `InvalidPayload` or not at all.
pub proof fn law_marshalling_fails_as_invalid_payload(
    request: GenerateRequestView,
    messages_json: Result<Seq<char>, Seq<char>>,
    streaming: bool,
)
    ensures
        marshalled(request, messages_json, streaming) matches Err(error) ==> error is InvalidPayload,
{
}

/// A start from an idle bridge starts a stream exactly when its request can
/// be marshalled, and the bridge is active afterwards exactly when a stream
/// was started: a start that fails with `InvalidPayload` claims nothing.
pub proof fn law_start_claims_only_on_success(
    bridge: BridgeView,
    request: GenerateRequestView,
    messages_json: Result<Seq<char>, Seq<char>>,
    stream_id: Seq<char>,
)
    requires
        bridge.supported,
        bridge.session is None,
    ensures
        ({
            let result = start_result(bridge, request, messages_json, stream_id);
            let next = after_start(bridge, request, messages_json, stream_id);
            &&& result is Ok <==> marshalled(request, messages_json, true) is Ok
            &&& result matches Err(error) ==> error is InvalidPayload
            &&& next.session is Some <==> result is Ok
            &&& result is Err ==> next.registry.calls == bridge.registry.calls
        }),
{
    law_marshalling_fails_as_invalid_payload(request, messages_json, true);
}

/// Of two attempts to start a stream with no end of stream between them, at
/// most one starts a stream: where the first does, the second is turned away
/// with `StreamBusy` and changes nothing. Where both requests can be
/// marshalled and the bridge was idle, exactly one of the two starts a
/// stream, the first. Where the first fails with `InvalidPayload`, the bridge
/// is still idle and the second is not turned away as busy.
pub proof fn law_second_start_is_busy(
    bridge: BridgeView,
    first_request: GenerateRequestView,
    first_messages: Result<Seq<char>, Seq<char>>,
    first_id: Seq<char>,
    second_request: GenerateRequestView,
    second_messages: Result<Seq<char>, Seq<char>>,
    second_id: Seq<char>,
)
    requires
        bridge.supported,
    ensures
        ({
            let first = start_result(bridge, first_request, first_messages, first_id);
            let between = after_start(bridge, first_request, first_messages, first_id);
            let second = start_result(between, second_request, second_messages, second_id);
            let busy = Err::<StreamLaunchView, ErrorView>(ErrorView::StreamBusy(busy_message()));
            &&& !(first is Ok && second is Ok)
            &&& first is Ok ==> second == busy && after_start(
                between,
                second_request,
                second_messages,
                second_id,
            ) == between
            &&& bridge.session is None && marshalled(first_request, first_messages, true) is Ok
                ==> first is Ok && second == busy
            &&& bridge.session is None && first is Err ==> between.session is None && second
                != busy
        }),
{
    law_marshalling_fails_as_invalid_payload(first_request, first_messages, true);
    law_marshalling_fails_as_invalid_payload(second_request, second_messages, true);
}

/// While a stream is active every start is turned away with `StreamBusy`,
/// whatever it asks for.
pub proof fn law_active_bridge_is_busy(
    bridge: BridgeView,
    request: GenerateRequestView,
    messages_json: Result<Seq<char>, Seq<char>>,
    stream_id: Seq<char>,
)
    requires
        bridge.supported,
        bridge.session is Some,
    ensures
        start_result(bridge, request, messages_json, stream_id) == Err::<
            StreamLaunchView,
            ErrorView,
        >(ErrorView::StreamBusy(busy_message())),
        after_start(bridge, request, messages_json, stream_id) == bridge,
{
}

/// A terminal chunk takes an active bridge to idle, and the next start is
/// then not turned away as busy: it starts a stream exactly when its request
/// can be marshalled.
pub proof fn law_end_of_stream_releases(
    bridge: BridgeView,
    terminal: Option<Seq<char>>,
    request: GenerateRequestView,
    messages_json: Result<Seq<char>, Seq<char>>,
    stream_id: Seq<char>,
)
    requires
        bridge.supported,
        bridge.session is Some,
        is_terminal(terminal),
    ensures
        after_chunk(bridge, terminal).session is None,
        ({
            let released = after_chunk(bridge, terminal);
            let next = start_result(released, request, messages_json, stream_id);
            &&& !(next matches Err(error) && error is StreamBusy)
            &&& match marshalled(request, messages_json, true) {
                Ok(call) => next == Ok::<StreamLaunchView, ErrorView>(
                    StreamLaunchView {
                        start: StreamStartView {
                            stream_id,
                            event_name: event_channel(stream_id),
                        },
                        call,
                    },
                ),
                Err(error) => next == Err::<StreamLaunchView, ErrorView>(error),
            }
            &&& after_start(released, request, messages_json, stream_id).session is Some
                <==> next is Ok
        }),
{
    law_marshalling_fails_as_invalid_payload(request, messages_json, true);
}

/// A chunk releases the bridge exactly when it ends the stream: the
/// end-of-stream chunk and an error chunk do, any other chunk leaves the
/// session and the registry as they were.
pub proof fn law_only_terminal_chunks_release(bridge: BridgeView, chunk: Option<Seq<char>>)
    requires
        bridge.session is Some,
    ensures
        is_terminal(chunk) ==> after_chunk(bridge, chunk).session is None,
        !is_terminal(chunk) ==> after_chunk(bridge, chunk) == bridge,
{
}

/// At a terminal chunk every recorded tool call is reported, in the order in
/// which the calls were made, and the event that ends the stream comes last,
/// be it `Done` or `Error`: tool calls are never reported after it, and none
/// is left recorded.
pub proof fn law_tool_calls_precede_the_terminal_event(
    bridge: BridgeView,
    terminal: Option<Seq<char>>,
)
    requires
        bridge.session is Some,
        is_terminal(terminal),
    ensures
        ({
            let channel = bridge.session->0.event_name;
            let calls = bridge.registry.calls;
            let emissions = chunk_emissions(bridge, terminal);
            &&& emissions.len() == calls.len() + 1
            &&& forall|i: int|
                0 <= i < calls.len() ==> #[trigger] emissions[i] == (EmissionView {
                    event_name: channel,
                    event: tool_call_event(calls[i]),
                })
            &&& emissions[calls.len() as int] == (EmissionView {
                event_name: channel,
                event: terminal_event(terminal),
            })
        }),
        after_chunk(bridge, terminal).registry.calls.len() == 0,
        after_chunk(bridge, terminal).registry.names == bridge.registry.names,
{
}

/// The end of a stream is reported by `Done`, and an error chunk by `Error`
/// with the characters after the sentinel: a stream ends with exactly one of
/// the two, and no `Done` follows an `Error`.
pub proof fn law_error_chunk_ends_without_done(bridge: BridgeView, chunk: Seq<char>)
    requires
        bridge.session is Some,
        is_error_chunk(chunk),
    ensures
        terminal_event(None) == StreamEventView::Done,
        terminal_event(Some(chunk)) == (StreamEventView::Error { message: chunk.skip(1) }),
        chunk_emissions(bridge, Some(chunk)).last() == (EmissionView {
            event_name: bridge.session->0.event_name,
            event: StreamEventView::Error { message: chunk.skip(1) },
        }),
        forall|i: int|
            0 <= i < chunk_emissions(bridge, Some(chunk)).len() ==> #[trigger] chunk_emissions(
                bridge,
                Some(chunk),
            )[i].event != StreamEventView::Done,
        after_chunk(bridge, Some(chunk)).session is None,
{
}

/// A tool call that was recorded stays recorded through every chunk that
/// does not end the stream, however many there are, and is reported when
/// the stream ends.
pub proof fn law_recorded_calls_survive_text(bridge: BridgeView, chunks: Seq<Option<Seq<char>>>)
    requires
        bridge.session is Some,
        forall|i: int| 0 <= i < chunks.len() ==> !is_terminal(#[trigger] chunks[i]),
    ensures
        after_chunks(bridge, chunks) == bridge,
        chunk_emissions(after_chunks(bridge, chunks), None) == chunk_emissions(bridge, None),
    decreases chunks.len(),
{
    if chunks.len() > 0 {
        let rest = chunks.drop_first();
        law_recorded_calls_survive_text(bridge, rest);
    }
}

/// While no stream is active, chunks give no event and change nothing: once
/// a stream has ended, whatever the engine still hands over is dropped.
pub proof fn law_nothing_after_the_end(bridge: BridgeView, chunks: Seq<Option<Seq<char>>>)
    requires
        bridge.session is None,
    ensures
        after_chunks(bridge, chunks) == bridge,
        emissions_of_chunks(bridge, chunks) == Seq::<EmissionView>::empty(),
    decreases chunks.len(),
{
    if chunks.len() > 0 {
        law_nothing_after_the_end(bridge, chunks.drop_first());
    }
}

/// After a chunk that ends the stream, no later chunk gives an event: the
/// events of a stream end with its one `Done` or `Error`.
pub proof fn law_terminal_event_is_last(
    bridge: BridgeView,
    terminal: Option<Seq<char>>,
    later: Seq<Option<Seq<char>>>,
)
    requires
        bridge.session is Some,
        is_terminal(terminal),
    ensures
        emissions_of_chunks(bridge, seq![terminal] + later) == chunk_emissions(bridge, terminal),
        after_chunks(bridge, seq![terminal] + later).session is None,
{
    let chunks = seq![terminal] + later;
    assert(chunks.drop_first() =~= later);
    law_nothing_after_the_end(after_chunk(bridge, terminal), later);
}

/// A stream that runs through chunks of text to a terminal chunk delivers
/// one `Text` event for each chunk that is not empty, in order, then every
/// recorded tool call, then the event that ends the stream, and is idle
/// afterwards. Tool calls are reported after all text, whenever they were
/// recorded.
pub proof fn law_text_then_tool_calls_then_terminal_event(
    bridge: BridgeView,
    chunks: Seq<Option<Seq<char>>>,
    terminal: Option<Seq<char>>,
)
    requires
        bridge.session is Some,
        forall|i: int| 0 <= i < chunks.len() ==> !is_terminal(#[trigger] chunks[i]),
        is_terminal(terminal),
    ensures
        emissions_of_chunks(bridge, chunks.push(terminal)) == text_emissions(
            bridge.session->0.event_name,
            chunks,
        ) + chunk_emissions(bridge, terminal),
        after_chunks(bridge, chunks.push(terminal)).session is None,
    decreases chunks.len(),
{
    let run = chunks.push(terminal);
    if chunks.len() == 0 {
        let released = after_chunk(bridge, terminal);
        assert(after_chunks(released, run.drop_first()) == released);
        assert(emissions_of_chunks(released, run.drop_first()) =~= Seq::<EmissionView>::empty());
    } else {
        let rest = chunks.drop_first();
        assert(run.drop_first() =~= rest.push(terminal));
        law_text_then_tool_calls_then_terminal_event(bridge, rest, terminal);
    }
}

} // verus!
