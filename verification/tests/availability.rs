use apple_ai_bridge::availability::{check_availability, reason_needed, STATUS_AVAILABLE};
use apple_ai_bridge::init::{InitLatch, InitState, InitStep};
use apple_ai_bridge::bridge::{unsupported_platform, Bridge};
use apple_ai_bridge::types::{AppleAIAvailability, AppleAIError};

fn ready_bridge() -> Bridge {
    let mut bridge = Bridge::new(true);
    bridge.init.report(true);
    bridge
}

#[test]
fn available_status_gives_the_fixed_reason() {
    let bridge = ready_bridge();
    assert_eq!(
        check_availability(&bridge, 1, None),
        Ok(AppleAIAvailability { available: true, reason: "Available".to_string() })
    );
    assert_eq!(
        check_availability(&bridge, STATUS_AVAILABLE, Some("ignored".to_string())),
        Ok(AppleAIAvailability { available: true, reason: "Available".to_string() })
    );
}

#[test]
fn other_status_gives_the_native_reason() {
    let bridge = ready_bridge();
    for status in [0, 2, -1, i32::MIN, i32::MAX] {
        assert_eq!(
            check_availability(&bridge, status, Some("Model not downloaded".to_string())),
            Ok(AppleAIAvailability {
                available: false,
                reason: "Model not downloaded".to_string()
            })
        );
    }
}

#[test]
fn missing_native_reason_is_the_empty_string() {
    let bridge = ready_bridge();
    assert_eq!(
        check_availability(&bridge, 0, None),
        Ok(AppleAIAvailability { available: false, reason: String::new() })
    );
}

#[test]
fn unsupported_platform_short_circuits() {
    let bridge = Bridge::new(false);
    let expected = AppleAIError::UnsupportedPlatform(
        "Apple Intelligence is only available on Apple Silicon macOS".to_string(),
    );
    assert_eq!(check_availability(&bridge, 1, None), Err(expected));
    assert!(matches!(
        check_availability(&bridge, 0, Some("reason".to_string())),
        Err(AppleAIError::UnsupportedPlatform(_))
    ));
    assert_eq!(
        unsupported_platform().to_string(),
        "Apple Intelligence is only available on Apple Silicon macOS"
    );
}

#[test]
fn reason_is_needed_only_when_unavailable() {
    assert!(!reason_needed(1));
    assert!(reason_needed(0));
    assert!(reason_needed(2));
    assert!(reason_needed(-1));
}

#[test]
fn new_bridge_is_idle_empty_and_not_initialised() {
    let bridge = Bridge::new(true);
    assert!(bridge.supported);
    assert_eq!(bridge.init.state, InitState::Pending);
    assert!(!bridge.is_engine_ready());
    assert!(!bridge.is_active());
    assert_eq!(bridge.session, None);
    assert!(bridge.registry.names.is_empty());
    assert!(bridge.registry.calls.is_empty());
    assert!(!Bridge::new(false).supported);
}

#[test]
fn engine_is_ready_after_a_successful_initialisation() {
    let mut bridge = Bridge::new(true);
    assert_eq!(bridge.init.next_step(), InitStep::Initialize);
    bridge.init.report(true);
    assert!(bridge.is_engine_ready());
    assert_eq!(bridge.init.next_step(), InitStep::Proceed);
    let mut failed = Bridge::new(true);
    failed.init.report(false);
    assert!(!failed.is_engine_ready());
    assert_eq!(failed.init.next_step(), InitStep::Abort);
    failed.init.report(true);
    assert!(!failed.is_engine_ready());
}

#[test]
fn bridge_without_engine_needs_no_initialisation() {
    let bridge = Bridge::new(false);
    assert!(bridge.is_engine_ready());
    assert_eq!(bridge.init.state, InitState::Pending);
}

#[test]
fn initialisation_is_asked_for_once() {
    let mut latch = InitLatch::new();
    assert_eq!(latch.state, InitState::Pending);
    assert_eq!(latch.next_step(), InitStep::Initialize);
    latch.report(true);
    assert_eq!(latch.state, InitState::Ready);
    assert_eq!(latch.next_step(), InitStep::Proceed);
    latch.report(false);
    assert_eq!(latch.state, InitState::Ready);
    assert_eq!(latch.next_step(), InitStep::Proceed);
}

#[test]
fn failed_initialisation_is_final() {
    let mut latch = InitLatch::new();
    latch.report(false);
    assert_eq!(latch.state, InitState::Failed);
    assert_eq!(latch.next_step(), InitStep::Abort);
    latch.report(true);
    assert_eq!(latch.state, InitState::Failed);
    assert_eq!(latch.next_step(), InitStep::Abort);
}

#[test]
fn error_shows_its_message_whatever_the_variant() {
    assert_eq!(AppleAIError::UnsupportedPlatform("a".to_string()).to_string(), "a");
    assert_eq!(AppleAIError::NativeError("b".to_string()).to_string(), "b");
    assert_eq!(AppleAIError::StreamBusy("c".to_string()).to_string(), "c");
    assert_eq!(AppleAIError::InvalidPayload("d".to_string()).to_string(), "d");
    assert_eq!(AppleAIError::NativeError(String::new()).to_string(), "");
}
