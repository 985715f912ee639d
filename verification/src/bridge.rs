//! The bridge's shared state, held in one place and handed to every
//! operation that needs it.
//!
//! A host keeps a single [`Bridge`] for the process and serialises access to
//! it; the exclusive borrow that each operation takes stands for the lock.

use crate::init::{InitLatch, InitState};
use crate::marshal::{
    marshal_request, marshalled, names_after_marshal, outcome_view, NativeCall, NativeCallView,
};
use crate::registry::{RecordedToolCallView, RegistryView, ToolRegistry};
use crate::types::{AppleAIError, AppleAIGenerateRequest, ErrorView, GenerateRequestView};
use vstd::prelude::*;

verus! {

/// The live state of a stream in progress: the name of the channel on which
/// its events are delivered.
#[derive(Clone, Debug, PartialEq)]
pub struct StreamState {
    pub event_name: String,
}

pub struct StreamStateView {
    pub event_name: Seq<char>,
}

impl View for StreamState {
    type V = StreamStateView;

    open spec fn view(&self) -> StreamStateView {
        StreamStateView { event_name: self.event_name@ }
    }
}

impl DeepView for StreamState {
    type V = StreamStateView;

    open spec fn deep_view(&self) -> StreamStateView {
        self@
    }
}

/// The state that the bridge's operations share.
///
/// The bridge is idle while `session` is `None` and active while it holds a
/// stream's state: at most one stream exists at a time.
pub struct Bridge {
    /// Whether the platform has a native engine.
    pub supported: bool,
    /// How far the initialisation of the engine has come.
    pub init: InitLatch,
    /// The stream in progress, if there is one.
    pub session: Option<StreamState>,
    /// Tool names by identifier, and the tool calls made so far.
    pub registry: ToolRegistry,
}

pub struct BridgeView {
    pub supported: bool,
    pub init: InitState,
    pub session: Option<StreamStateView>,
    pub registry: RegistryView,
}

impl View for Bridge {
    type V = BridgeView;

    open spec fn view(&self) -> BridgeView {
        BridgeView {
            supported: self.supported,
            init: self.init.state,
            session: self.session.deep_view(),
            registry: self.registry@,
        }
    }
}

impl BridgeView {
    /// Whether the operations that lead to a native call may be used: where
    /// the platform has an engine, the engine must have been initialised,
    /// and with success. Where it has none, the operations only report that.
    pub open spec fn engine_ready(self) -> bool {
        self.supported ==> self.init == InitState::Ready
    }
}

/// The message of every `UnsupportedPlatform` error.
pub open spec fn unsupported_message() -> Seq<char> {
    "Apple Intelligence is only available on Apple Silicon macOS"@
}

/// The error that every operation gives on a platform without an engine.
pub fn unsupported_platform() -> (error: AppleAIError)
    ensures
        error@ == ErrorView::UnsupportedPlatform(unsupported_message()),
{
    AppleAIError::UnsupportedPlatform(
        "Apple Intelligence is only available on Apple Silicon macOS".to_owned(),
    )
}

/// What preparing a single-shot generation gives: `UnsupportedPlatform`
/// where there is no engine, else what marshalling the request gives.
pub open spec fn prepared(
    bridge: BridgeView,
    request: GenerateRequestView,
    messages_json: Result<Seq<char>, Seq<char>>,
) -> Result<NativeCallView, ErrorView> {
    if bridge.supported {
        marshalled(request, messages_json, false)
    } else {
        Err(ErrorView::UnsupportedPlatform(unsupported_message()))
    }
}

/// The bridge after a single-shot generation was prepared: only the tool
/// names can have changed, and only where there is an engine.
pub open spec fn after_prepare(
    bridge: BridgeView,
    request: GenerateRequestView,
    messages_json: Result<Seq<char>, Seq<char>>,
) -> BridgeView {
    if bridge.supported {
        BridgeView {
            registry: RegistryView {
                names: names_after_marshal(bridge.registry.names, request, messages_json),
                calls: bridge.registry.calls,
            },
            ..bridge
        }
    } else {
        bridge
    }
}

impl Bridge {
    /// An idle bridge with an empty registry, whose engine is not
    /// initialised yet. `supported` says whether the platform has a native
    /// engine.
    pub fn new(supported: bool) -> (bridge: Bridge)
        ensures
            bridge@.supported == supported,
            bridge@.init == InitState::Pending,
            bridge@.session is None,
            bridge@.registry.names == Map::<u64, Seq<char>>::empty(),
            bridge@.registry.calls == Seq::<RecordedToolCallView>::empty(),
    {
        Bridge { supported, init: InitLatch::new(), session: None, registry: ToolRegistry::new() }
    }

    /// Whether the operations that lead to a native call may be used. A
    /// host tests this before each of them, and gives up where it fails.
    pub fn is_engine_ready(&self) -> (ready: bool)
        ensures
            ready == self@.engine_ready(),
    {
        if self.supported {
            match self.init.state {
                InitState::Ready => true,
                _ => false,
            }
        } else {
            true
        }
    }

    /// Whether a stream is in progress.
    pub fn is_active(&self) -> (active: bool)
        ensures
            active == (self@.session is Some),
    {
        self.session.is_some()
    }
}

/// Prepares a single-shot generation: the arguments of the native call that
/// the host is to make without a chunk handler. The string that the call
/// returns goes to [`generate`](crate::decode::generate).
///
/// `messages_json` is the outcome of serialising the request's messages. The
/// result is exactly [`prepared`], and the bridge becomes [`after_prepare`].
///
/// A native call is prepared only once the engine is initialised: where the
/// platform has an engine, the bridge's latch must be ready.
pub fn prepare_generate(
    bridge: &mut Bridge,
    request: &AppleAIGenerateRequest,
    messages_json: Result<String, String>,
) -> (call: Result<NativeCall, AppleAIError>)
    requires
        old(bridge)@.engine_ready(),
    ensures
        match call {
            Ok(native) => prepared(old(bridge)@, request@, outcome_view(messages_json)) == Ok::<
                NativeCallView,
                ErrorView,
            >(native@),
            Err(error) => prepared(old(bridge)@, request@, outcome_view(messages_json)) == Err::<
                NativeCallView,
                ErrorView,
            >(error@),
        },
        final(bridge)@ == after_prepare(old(bridge)@, request@, outcome_view(messages_json)),
{
    if !bridge.supported {
        return Err(unsupported_platform());
    }
    marshal_request(&mut bridge.registry, request, messages_json, false)
}

} // verus!
