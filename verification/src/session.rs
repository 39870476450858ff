//! Scanner and per-device session decisions.
//!
//! The I/O shell owns the BLE transport; every decision it takes runs
//! through this module.  The scanner maps each central event to an
//! action; a session is a linear state machine from discovery to the
//! notification stream, advanced one event at a time; each received
//! payload is handled by decoding it, classifying it and planning the
//! rotation.

use vstd::prelude::*;
use crate::classifier::{classify, spec_classify};
use crate::decoder::{decode, spec_decode, DecodeError};
use crate::rotate_screen::{
    rotate,
    rotation_request_matches,
    spec_parse_display_index,
    Orientation,
    Platform,
    RotateError,
    RotationRequest,
};

verus! {

/// Identifier of the accelerometer's advertised data service, as the
/// 128-bit value of its UUID.
pub const DATA_SERVICE_UUID: u128 = 0x0000ff10_0000_1000_8000_00805f9b34fb;

/// Identifier of the data characteristic inside that service, as the
/// 128-bit value of its UUID.
pub const DATA_CHR_UUID: u128 = 0x0000ff11_0000_1000_8000_00805f9b34fb;

/// Kind of a central event seen by the scanner.
#[derive(Clone, Copy, Debug, PartialEq, Eq, Structural)]
pub enum CentralEventKind {
    DeviceDiscovered,
    DeviceConnected,
    DeviceDisconnected,
    Other,
}

/// What the scanner does with one central event.
#[derive(Clone, Copy, Debug, PartialEq, Eq, Structural)]
pub enum ScannerAction {
    /// Spawn an independent session for the discovered device.
    SpawnSession,
    /// Record the event; no state changes at the scanner layer.
    LogOnly,
    Ignore,
}

pub open spec fn spec_scanner_action(event: CentralEventKind) -> ScannerAction {
    match event {
        CentralEventKind::DeviceDiscovered => ScannerAction::SpawnSession,
        CentralEventKind::DeviceConnected => ScannerAction::LogOnly,
        CentralEventKind::DeviceDisconnected => ScannerAction::LogOnly,
        CentralEventKind::Other => ScannerAction::Ignore,
    }
}

/// The scanner's decision for one central event: discoveries spawn a
/// session, connection changes are only logged, the rest is ignored.
pub fn scanner_action(event: CentralEventKind) -> (r: ScannerAction)
    ensures
        r == spec_scanner_action(event),
{
    match event {
        CentralEventKind::DeviceDiscovered => ScannerAction::SpawnSession,
        CentralEventKind::DeviceConnected => ScannerAction::LogOnly,
        CentralEventKind::DeviceDisconnected => ScannerAction::LogOnly,
        CentralEventKind::Other => ScannerAction::Ignore,
    }
}

/// Phase of one device session; the machine is linear, with no retry
/// and no rollback.
#[derive(Clone, Copy, Debug, PartialEq, Eq, Structural)]
pub enum SessionPhase {
    Discovered,
    Connected,
    ServicesDiscovered,
    CharacteristicFound,
    Subscribed,
    Streaming,
    Ended,
}

/// Why a session ended before its stream closed.
#[derive(Clone, Copy, Debug, PartialEq, Eq, Structural)]
pub enum SessionError {
    /// The platform reports no properties for the device.
    PropertiesUnavailable,
    ConnectFailed,
    ServiceDiscoveryFailed,
    /// No exposed characteristic carries the data-characteristic
    /// descriptor.
    CharacteristicNotFound,
    SubscribeFailed,
    StreamOpenFailed,
}

/// Outcome of one session step, reported by the I/O shell.
#[derive(Clone, Copy, Debug, PartialEq, Eq, Structural)]
pub enum SessionEvent {
    ConnectSucceeded,
    PropertiesMissing,
    ConnectFailed,
    ServicesDiscovered,
    ServiceDiscoveryFailed,
    CharacteristicLocated,
    CharacteristicMissing,
    SubscribeSucceeded,
    SubscribeFailed,
    StreamOpened,
    StreamOpenFailed,
    NotificationReceived,
    StreamClosed,
}

/// What the I/O shell must do next with the device.
#[derive(Clone, Copy, Debug, PartialEq, Eq, Structural)]
pub enum SessionAction {
    DiscoverServices,
    LocateCharacteristic,
    Subscribe,
    OpenStream,
    AwaitNotification,
    ProcessNotification,
    /// The stream closed; drop the session's state.
    EndSession,
    /// End the session, logging this error.
    Fail(SessionError),
    Ignore,
}

/// The session state machine: each phase accepts the outcome of its
/// own step and either moves to the next phase or ends; an event that
/// does not belong to the phase changes nothing.
pub open spec fn spec_advance(phase: SessionPhase, event: SessionEvent) -> (
    SessionPhase,
    SessionAction,
) {
    match (phase, event) {
        (SessionPhase::Discovered, SessionEvent::ConnectSucceeded) => (
            SessionPhase::Connected,
            SessionAction::DiscoverServices,
        ),
        (SessionPhase::Discovered, SessionEvent::PropertiesMissing) => (
            SessionPhase::Ended,
            SessionAction::Fail(SessionError::PropertiesUnavailable),
        ),
        (SessionPhase::Discovered, SessionEvent::ConnectFailed) => (
            SessionPhase::Ended,
            SessionAction::Fail(SessionError::ConnectFailed),
        ),
        (SessionPhase::Connected, SessionEvent::ServicesDiscovered) => (
            SessionPhase::ServicesDiscovered,
            SessionAction::LocateCharacteristic,
        ),
        (SessionPhase::Connected, SessionEvent::ServiceDiscoveryFailed) => (
            SessionPhase::Ended,
            SessionAction::Fail(SessionError::ServiceDiscoveryFailed),
        ),
        (SessionPhase::ServicesDiscovered, SessionEvent::CharacteristicLocated) => (
            SessionPhase::CharacteristicFound,
            SessionAction::Subscribe,
        ),
        (SessionPhase::ServicesDiscovered, SessionEvent::CharacteristicMissing) => (
            SessionPhase::Ended,
            SessionAction::Fail(SessionError::CharacteristicNotFound),
        ),
        (SessionPhase::CharacteristicFound, SessionEvent::SubscribeSucceeded) => (
            SessionPhase::Subscribed,
            SessionAction::OpenStream,
        ),
        (SessionPhase::CharacteristicFound, SessionEvent::SubscribeFailed) => (
            SessionPhase::Ended,
            SessionAction::Fail(SessionError::SubscribeFailed),
        ),
        (SessionPhase::Subscribed, SessionEvent::StreamOpened) => (
            SessionPhase::Streaming,
            SessionAction::AwaitNotification,
        ),
        (SessionPhase::Subscribed, SessionEvent::StreamOpenFailed) => (
            SessionPhase::Ended,
            SessionAction::Fail(SessionError::StreamOpenFailed),
        ),
        (SessionPhase::Streaming, SessionEvent::NotificationReceived) => (
            SessionPhase::Streaming,
            SessionAction::ProcessNotification,
        ),
        (SessionPhase::Streaming, SessionEvent::StreamClosed) => (
            SessionPhase::Ended,
            SessionAction::EndSession,
        ),
        _ => (phase, SessionAction::Ignore),
    }
}

/// Advances a session by one reported event.
pub fn advance(phase: SessionPhase, event: SessionEvent) -> (r: (SessionPhase, SessionAction))
    ensures
        r == spec_advance(phase, event),
{
    match (phase, event) {
        (SessionPhase::Discovered, SessionEvent::ConnectSucceeded) => (
            SessionPhase::Connected,
            SessionAction::DiscoverServices,
        ),
        (SessionPhase::Discovered, SessionEvent::PropertiesMissing) => (
            SessionPhase::Ended,
            SessionAction::Fail(SessionError::PropertiesUnavailable),
        ),
        (SessionPhase::Discovered, SessionEvent::ConnectFailed) => (
            SessionPhase::Ended,
            SessionAction::Fail(SessionError::ConnectFailed),
        ),
        (SessionPhase::Connected, SessionEvent::ServicesDiscovered) => (
            SessionPhase::ServicesDiscovered,
            SessionAction::LocateCharacteristic,
        ),
        (SessionPhase::Connected, SessionEvent::ServiceDiscoveryFailed) => (
            SessionPhase::Ended,
            SessionAction::Fail(SessionError::ServiceDiscoveryFailed),
        ),
        (SessionPhase::ServicesDiscovered, SessionEvent::CharacteristicLocated) => (
            SessionPhase::CharacteristicFound,
            SessionAction::Subscribe,
        ),
        (SessionPhase::ServicesDiscovered, SessionEvent::CharacteristicMissing) => (
            SessionPhase::Ended,
            SessionAction::Fail(SessionError::CharacteristicNotFound),
        ),
        (SessionPhase::CharacteristicFound, SessionEvent::SubscribeSucceeded) => (
            SessionPhase::Subscribed,
            SessionAction::OpenStream,
        ),
        (SessionPhase::CharacteristicFound, SessionEvent::SubscribeFailed) => (
            SessionPhase::Ended,
            SessionAction::Fail(SessionError::SubscribeFailed),
        ),
        (SessionPhase::Subscribed, SessionEvent::StreamOpened) => (
            SessionPhase::Streaming,
            SessionAction::AwaitNotification,
        ),
        (SessionPhase::Subscribed, SessionEvent::StreamOpenFailed) => (
            SessionPhase::Ended,
            SessionAction::Fail(SessionError::StreamOpenFailed),
        ),
        (SessionPhase::Streaming, SessionEvent::NotificationReceived) => (
            SessionPhase::Streaming,
            SessionAction::ProcessNotification,
        ),
        (SessionPhase::Streaming, SessionEvent::StreamClosed) => (
            SessionPhase::Ended,
            SessionAction::EndSession,
        ),
        _ => (phase, SessionAction::Ignore),
    }
}

/// Position of a phase in the linear order of the session.
pub open spec fn phase_rank(phase: SessionPhase) -> nat {
    match phase {
        SessionPhase::Discovered => 0nat,
        SessionPhase::Connected => 1nat,
        SessionPhase::ServicesDiscovered => 2nat,
        SessionPhase::CharacteristicFound => 3nat,
        SessionPhase::Subscribed => 4nat,
        SessionPhase::Streaming => 5nat,
        SessionPhase::Ended => 6nat,
    }
}

/// Sequencing law: a session never moves backwards — every event
/// leaves the phase where it was, advances it, or ends the session.
pub proof fn lemma_session_progress(phase: SessionPhase, event: SessionEvent)
    ensures
        phase_rank(spec_advance(phase, event).0) >= phase_rank(phase),
{
}

/// Sequencing law: no step is skipped — one event advances the phase
/// by at most one position, unless the session ends.
pub proof fn lemma_session_no_skip(phase: SessionPhase, event: SessionEvent)
    ensures
        spec_advance(phase, event).0 == SessionPhase::Ended || phase_rank(
            spec_advance(phase, event).0,
        ) <= phase_rank(phase) + 1,
{
}

/// One exposed characteristic, reduced to what the session reads of
/// it: the characteristic identifiers carried by its descriptors, each
/// as the 128-bit value of its UUID.
#[derive(Clone, Debug, PartialEq, Eq)]
pub struct CharacteristicInfo {
    pub descriptors: Vec<u128>,
}

/// Whether a characteristic carries the data-characteristic
/// identifier among its descriptors.
pub open spec fn has_data_descriptor(c: CharacteristicInfo) -> bool {
    exists|k: int| 0 <= k < c.descriptors@.len() && c.descriptors@[k] == DATA_CHR_UUID
}

/// Whether this characteristic is the sensor's data characteristic.
pub fn is_data_characteristic(c: &CharacteristicInfo) -> (r: bool)
    ensures
        r == has_data_descriptor(*c),
{
    let mut k: usize = 0;
    while k < c.descriptors.len()
        invariant
            0 <= k <= c.descriptors@.len(),
            forall|j: int| 0 <= j < k ==> c.descriptors@[j] != DATA_CHR_UUID,
        decreases c.descriptors@.len() - k,
    {
        if c.descriptors[k] == DATA_CHR_UUID {
            assert(has_data_descriptor(*c));
            return true;
        }
        k = k + 1;
    }
    false
}

/// Index of the first exposed characteristic that carries the
/// data-characteristic descriptor, if any: the one the session
/// subscribes to.  `None` rejects a device with the right name but the
/// wrong GATT layout.
pub fn find_data_characteristic(characteristics: &Vec<CharacteristicInfo>) -> (r: Option<usize>)
    ensures
        match r {
            Some(i) => i < characteristics@.len() && has_data_descriptor(
                characteristics@[i as int],
            ) && forall|j: int| 0 <= j < i ==> !has_data_descriptor(characteristics@[j]),
            None => forall|j: int|
                0 <= j < characteristics@.len() ==> !has_data_descriptor(characteristics@[j]),
        },
{
    let mut i: usize = 0;
    while i < characteristics.len()
        invariant
            0 <= i <= characteristics@.len(),
            forall|j: int| 0 <= j < i ==> !has_data_descriptor(characteristics@[j]),
        decreases characteristics@.len() - i,
    {
        if is_data_characteristic(&characteristics[i]) {
            return Some(i);
        }
        i = i + 1;
    }
    None
}

/// Why one notification payload did not produce a rotation plan.
#[derive(Clone, Copy, Debug, PartialEq, Eq, Structural)]
pub enum HandleError {
    /// The payload was malformed; the orientation is unchanged.
    Decode(DecodeError),
    /// The sample changed the orientation, which is recorded, but no
    /// rotation could be planned.
    Rotate(RotateError),
}

/// Full contract of `handle_povorotnik_data`, relating the result and
/// the orientation after the call to the payload and the orientation
/// before it.
pub open spec fn handle_result_matches(
    r: Result<Option<RotationRequest>, HandleError>,
    previous: Orientation,
    updated: Orientation,
    platform: Platform,
    display: Seq<char>,
    data: Seq<u8>,
) -> bool {
    match spec_decode(data) {
        Err(e) => r == Err::<Option<RotationRequest>, HandleError>(HandleError::Decode(e))
            && updated == previous,
        Ok(sample) => {
            let target = spec_classify(sample.x as int, sample.y as int, previous);
            &&& updated == target
            &&& if target == previous {
                r == Ok::<Option<RotationRequest>, HandleError>(None)
            } else {
                match r {
                    Ok(Some(req)) => rotation_request_matches(req, platform, display, target),
                    Err(HandleError::Rotate(e)) => {
                        &&& platform == Platform::Windows
                        &&& spec_parse_display_index(display) is None
                        &&& e == RotateError::InvalidDisplayNumber
                    },
                    _ => false,
                }
            }
        },
    }
}

/// Handles one notification payload from the sensor.
///
/// The payload is decoded and classified; the session's orientation
/// advances to the classification whenever the payload decodes, even
/// when no rotation can be planned.  A rotation is planned exactly
/// when the classification differs from the previous orientation.
pub fn handle_povorotnik_data(
    platform: Platform,
    display: &str,
    orientation: &mut Orientation,
    data: &[u8],
) -> (r: Result<Option<RotationRequest>, HandleError>)
    ensures
        handle_result_matches(
            r,
            *old(orientation),
            *final(orientation),
            platform,
            display@,
            data@,
        ),
{
    let sample = match decode(data) {
        Ok(s) => s,
        Err(e) => {
            return Err(HandleError::Decode(e));
        },
    };
    let previous = *orientation;
    let new_orientation = classify(sample.x, sample.y, previous);
    *orientation = new_orientation;
    if new_orientation == previous {
        return Ok(None);
    }
    match rotate(platform, display, new_orientation) {
        Ok(req) => Ok(Some(req)),
        Err(e) => Err(HandleError::Rotate(e)),
    }
}

} // verus!
