//! Availability: the probe that says whether the native engine can be used.

use crate::bridge::{unsupported_message, unsupported_platform, Bridge, BridgeView};
use crate::types::{AppleAIAvailability, AppleAIError, AvailabilityView, ErrorView};
use vstd::prelude::*;

verus! {

/// The status with which the native probe reports that the engine can be
/// used. Every other status means that it cannot.
pub const STATUS_AVAILABLE: i32 = 1;

/// Whether a status of the native probe says that the engine can be used.
pub open spec fn status_available(status: i32) -> bool {
    status == STATUS_AVAILABLE
}

/// What a probe of the engine amounts to.
///
/// - On a platform without an engine: `UnsupportedPlatform`, whatever the
///   other arguments are.
/// - With the status that means available: available, with the reason
///   `"Available"`.
/// - With any other status: not available, with the reason that the engine
///   supplied, or the empty string where it supplied none.
pub open spec fn availability(bridge: BridgeView, status: i32, reason: Option<Seq<char>>) -> Result<
    AvailabilityView,
    ErrorView,
> {
    if !bridge.supported {
        Err(ErrorView::UnsupportedPlatform(unsupported_message()))
    } else if status_available(status) {
        Ok(AvailabilityView { available: true, reason: "Available"@ })
    } else {
        Ok(
            AvailabilityView {
                available: false,
                reason: match reason {
                    Some(text) => text,
                    None => Seq::empty(),
                },
            },
        )
    }
}

/// Whether the host is to fetch the engine's reason after a probe that
/// returned `status`: only where the engine cannot be used.
pub fn reason_needed(status: i32) -> (needed: bool)
    ensures
        needed == !status_available(status),
{
    status != STATUS_AVAILABLE
}

/// Says whether the engine can be used, from what the native probe
/// reported. `status` is the probe's status, and `reason` the reason that the
/// engine supplied where [`reason_needed`] asked for it. The result is
/// exactly [`availability`].
///
/// The engine is probed only once it is initialised: where the platform has
/// an engine, the bridge's latch must be ready.
pub fn check_availability(bridge: &Bridge, status: i32, reason: Option<String>) -> (result: Result<
    AppleAIAvailability,
    AppleAIError,
>)
    requires
        bridge@.engine_ready(),
    ensures
        match result {
            Ok(value) => availability(bridge@, status, reason.deep_view()) == Ok::<
                AvailabilityView,
                ErrorView,
            >(value@),
            Err(error) => availability(bridge@, status, reason.deep_view()) == Err::<
                AvailabilityView,
                ErrorView,
            >(error@),
        },
{
    if !bridge.supported {
        return Err(unsupported_platform());
    }
    if status == STATUS_AVAILABLE {
        Ok(AppleAIAvailability { available: true, reason: "Available".to_owned() })
    } else {
        let reason = match reason {
            Some(text) => text,
            None => String::new(),
        };
        Ok(AppleAIAvailability { available: false, reason })
    }
}

} // verus!
