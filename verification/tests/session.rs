use povorotnik::decoder::DecodeError;
use povorotnik::rotate_screen::{Orientation, Platform, RotateError, RotationRequest};
use povorotnik::session::{
    advance, find_data_characteristic, handle_povorotnik_data, is_data_characteristic,
    scanner_action, CentralEventKind, CharacteristicInfo, HandleError, ScannerAction,
    SessionAction, SessionError, SessionEvent, SessionPhase, DATA_CHR_UUID, DATA_SERVICE_UUID,
};

#[test]
fn scanner_reacts_only_to_discovery() {
    assert_eq!(
        scanner_action(CentralEventKind::DeviceDiscovered),
        ScannerAction::SpawnSession
    );
    assert_eq!(scanner_action(CentralEventKind::DeviceConnected), ScannerAction::LogOnly);
    assert_eq!(
        scanner_action(CentralEventKind::DeviceDisconnected),
        ScannerAction::LogOnly
    );
    assert_eq!(scanner_action(CentralEventKind::Other), ScannerAction::Ignore);
}

#[test]
fn well_known_identifiers() {
    assert_eq!(DATA_SERVICE_UUID, 0x0000ff10_0000_1000_8000_00805f9b34fb);
    assert_eq!(DATA_CHR_UUID, 0x0000ff11_0000_1000_8000_00805f9b34fb);
}

#[test]
fn session_happy_path_is_linear() {
    let (phase, action) = advance(SessionPhase::Discovered, SessionEvent::ConnectSucceeded);
    assert_eq!((phase, action), (SessionPhase::Connected, SessionAction::DiscoverServices));
    let (phase, action) = advance(phase, SessionEvent::ServicesDiscovered);
    assert_eq!(
        (phase, action),
        (SessionPhase::ServicesDiscovered, SessionAction::LocateCharacteristic)
    );
    let (phase, action) = advance(phase, SessionEvent::CharacteristicLocated);
    assert_eq!((phase, action), (SessionPhase::CharacteristicFound, SessionAction::Subscribe));
    let (phase, action) = advance(phase, SessionEvent::SubscribeSucceeded);
    assert_eq!((phase, action), (SessionPhase::Subscribed, SessionAction::OpenStream));
    let (phase, action) = advance(phase, SessionEvent::StreamOpened);
    assert_eq!((phase, action), (SessionPhase::Streaming, SessionAction::AwaitNotification));
    let (phase, action) = advance(phase, SessionEvent::NotificationReceived);
    assert_eq!((phase, action), (SessionPhase::Streaming, SessionAction::ProcessNotification));
    let (phase, action) = advance(phase, SessionEvent::StreamClosed);
    assert_eq!((phase, action), (SessionPhase::Ended, SessionAction::EndSession));
}

#[test]
fn session_failures_end_the_session() {
    assert_eq!(
        advance(SessionPhase::Discovered, SessionEvent::PropertiesMissing),
        (SessionPhase::Ended, SessionAction::Fail(SessionError::PropertiesUnavailable))
    );
    assert_eq!(
        advance(SessionPhase::Discovered, SessionEvent::ConnectFailed),
        (SessionPhase::Ended, SessionAction::Fail(SessionError::ConnectFailed))
    );
    assert_eq!(
        advance(SessionPhase::Connected, SessionEvent::ServiceDiscoveryFailed),
        (SessionPhase::Ended, SessionAction::Fail(SessionError::ServiceDiscoveryFailed))
    );
    assert_eq!(
        advance(SessionPhase::ServicesDiscovered, SessionEvent::CharacteristicMissing),
        (SessionPhase::Ended, SessionAction::Fail(SessionError::CharacteristicNotFound))
    );
    assert_eq!(
        advance(SessionPhase::CharacteristicFound, SessionEvent::SubscribeFailed),
        (SessionPhase::Ended, SessionAction::Fail(SessionError::SubscribeFailed))
    );
    assert_eq!(
        advance(SessionPhase::Subscribed, SessionEvent::StreamOpenFailed),
        (SessionPhase::Ended, SessionAction::Fail(SessionError::StreamOpenFailed))
    );
}

#[test]
fn out_of_order_events_change_nothing() {
    assert_eq!(
        advance(SessionPhase::Discovered, SessionEvent::StreamClosed),
        (SessionPhase::Discovered, SessionAction::Ignore)
    );
    assert_eq!(
        advance(SessionPhase::Streaming, SessionEvent::ConnectSucceeded),
        (SessionPhase::Streaming, SessionAction::Ignore)
    );
    assert_eq!(
        advance(SessionPhase::Ended, SessionEvent::NotificationReceived),
        (SessionPhase::Ended, SessionAction::Ignore)
    );
}

#[test]
fn data_characteristic_is_found_by_descriptor() {
    let chars = vec![
        CharacteristicInfo { descriptors: vec![] },
        CharacteristicInfo { descriptors: vec![0x1234, DATA_CHR_UUID] },
        CharacteristicInfo { descriptors: vec![DATA_CHR_UUID] },
    ];
    assert!(!is_data_characteristic(&chars[0]));
    assert!(is_data_characteristic(&chars[1]));
    assert_eq!(find_data_characteristic(&chars), Some(1));

    let none = vec![
        CharacteristicInfo { descriptors: vec![0x1234] },
        CharacteristicInfo { descriptors: vec![DATA_SERVICE_UUID] },
    ];
    assert_eq!(find_data_characteristic(&none), None);
    assert_eq!(find_data_characteristic(&vec![]), None);
}

#[test]
fn streaming_scenario_rotates_once() {
    // Device "LE Counter": discovered, connected, subscribed, streaming.
    let mut phase = SessionPhase::Discovered;
    for event in [
        SessionEvent::ConnectSucceeded,
        SessionEvent::ServicesDiscovered,
        SessionEvent::CharacteristicLocated,
        SessionEvent::SubscribeSucceeded,
        SessionEvent::StreamOpened,
    ] {
        phase = advance(phase, event).0;
    }
    assert_eq!(phase, SessionPhase::Streaming);

    // A session always starts at the default orientation.
    let mut orientation = Orientation::D0;

    // First payload classifies to the default: no rotation planned.
    let result = handle_povorotnik_data(
        Platform::Kde,
        "eDP-1",
        &mut orientation,
        b"{\"x\":0.0,\"y\":1.0,\"z\":9.8}",
    );
    assert_eq!(result, Ok(None));
    assert_eq!(orientation, Orientation::D0);

    // Second payload classifies to 90 degrees: one rotation planned.
    let result = handle_povorotnik_data(
        Platform::Kde,
        "eDP-1",
        &mut orientation,
        b"{\"x\":-0.9,\"y\":0.0,\"z\":9.8}",
    );
    assert_eq!(
        result,
        Ok(Some(RotationRequest::Compositor {
            argument: "output.eDP-1.rotation.left".to_string()
        }))
    );
    assert_eq!(orientation, Orientation::D90);
}

#[test]
fn malformed_payload_is_skipped_not_fatal() {
    let mut orientation = Orientation::D0;

    let result = handle_povorotnik_data(
        Platform::Kde,
        "eDP-1",
        &mut orientation,
        b"{\"x\":0.0,\"y\":1.0,\"z\":9.8}",
    );
    assert_eq!(result, Ok(None));
    assert_eq!(orientation, Orientation::D0);

    // A malformed payload reports an error and leaves the state alone.
    let result = handle_povorotnik_data(Platform::Kde, "eDP-1", &mut orientation, b"not json");
    assert_eq!(result, Err(HandleError::Decode(DecodeError::InvalidFormat)));
    assert_eq!(orientation, Orientation::D0);

    // The next valid payload is processed normally.
    let result = handle_povorotnik_data(
        Platform::Kde,
        "eDP-1",
        &mut orientation,
        b"{\"x\":-0.9,\"y\":0.0,\"z\":9.8}",
    );
    assert!(result.is_ok());
    assert_eq!(orientation, Orientation::D90);
}

#[test]
fn orientation_advances_even_when_planning_fails() {
    let mut orientation = Orientation::D0;
    let result = handle_povorotnik_data(
        Platform::Windows,
        "no-such-display",
        &mut orientation,
        b"{\"x\":-0.9,\"y\":0.0,\"z\":9.8}",
    );
    assert_eq!(result, Err(HandleError::Rotate(RotateError::InvalidDisplayNumber)));
    assert_eq!(orientation, Orientation::D90);
}

#[test]
fn unchanged_classification_plans_no_rotation() {
    let mut orientation = Orientation::D90;
    let result = handle_povorotnik_data(
        Platform::Kde,
        "eDP-1",
        &mut orientation,
        b"{\"x\":-0.9,\"y\":0.0,\"z\":9.8}",
    );
    assert_eq!(result, Ok(None));
    assert_eq!(orientation, Orientation::D90);
}
