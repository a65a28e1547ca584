use remote_controller::actions::{action_at, action_to_msg, Actions, ACTION_COUNT};
use remote_controller::address::{addresses_equal, broadcast_address};
use remote_controller::discovery::{
    ack_payload, payload_is_ack, probe_payload, send_failure_policy, DiscoveryState, InboundFrame,
    ReceiveAction, SendFailurePolicy, SendPhase, DISPATCH_INTERVAL_MS, PROBE_PERIOD_MS,
};

const OWN: [u8; 6] = [0x10, 0x20, 0x30, 0x40, 0x50, 0x60];
const ROBOT: [u8; 6] = [0xaa, 0xbb, 0xcc, 0xdd, 0xee, 0x01];

fn frame(source: [u8; 6], destination: [u8; 6], payload: &[u8]) -> InboundFrame {
    InboundFrame { source, destination, payload: payload.to_vec() }
}

/// Drive a fresh controller to `Connected` through the broadcast path.
fn connected_state() -> DiscoveryState {
    let s = DiscoveryState::new(0);
    let (s, action) = s.on_receive(&OWN, &frame(ROBOT, broadcast_address(), b"anything"));
    assert_eq!(action, ReceiveAction::AcceptBroadcast);
    s
}

#[test]
fn scenario_broadcast_adoption() {
    let s = DiscoveryState::new(0);
    let f = frame(ROBOT, broadcast_address(), b"anything");
    let (s, action) = s.on_receive(&OWN, &f);
    // Any broadcast frame, whatever its payload, adopts the sender; the
    // caller must toggle the indicator once, register the peer if it is
    // absent and send the acknowledgment back.
    assert_eq!(action, ReceiveAction::AcceptBroadcast);
    assert!(s.is_connected());
    assert_eq!(s.peer(), Some(ROBOT));
    assert_eq!(s.action_index(), Some(0));
}

#[test]
fn scenario_unicast_ack() {
    let s = DiscoveryState::new(0);
    let f = frame(ROBOT, OWN, b"CONNECTED");
    let (s, action) = s.on_receive(&OWN, &f);
    // A unicast acknowledgment adopts the sender; no reply is sent.
    assert_eq!(action, ReceiveAction::AcceptAck);
    assert!(s.is_connected());
    assert_eq!(s.peer(), Some(ROBOT));
}

#[test]
fn unicast_wrong_payload_ignored() {
    let s = DiscoveryState::new(7);
    let (s, action) = s.on_receive(&OWN, &frame(ROBOT, OWN, b"HELLO"));
    assert_eq!(action, ReceiveAction::Ignore);
    assert!(!s.is_connected());
    assert_eq!(s.next_broadcast(), Some(7));
}

#[test]
fn unicast_to_other_address_ignored() {
    let s = DiscoveryState::new(0);
    let other: [u8; 6] = [9, 9, 9, 9, 9, 9];
    let (s, action) = s.on_receive(&OWN, &frame(ROBOT, other, b"CONNECTED"));
    assert_eq!(action, ReceiveAction::Ignore);
    assert!(!s.is_connected());
}

#[test]
fn non_utf8_broadcast_still_adopts() {
    let s = DiscoveryState::new(0);
    let (s, action) = s.on_receive(&OWN, &frame(ROBOT, broadcast_address(), &[0xff, 0xfe, 0x80]));
    assert_eq!(action, ReceiveAction::AcceptBroadcast);
    assert_eq!(s.peer(), Some(ROBOT));
}

#[test]
fn non_utf8_unicast_ignored() {
    let s = DiscoveryState::new(0);
    let (s, action) = s.on_receive(&OWN, &frame(ROBOT, OWN, &[0xff, 0xfe, 0x80]));
    assert_eq!(action, ReceiveAction::Ignore);
    assert!(!s.is_connected());
}

#[test]
fn connected_ignores_all_frames() {
    let s = connected_state();
    let other: [u8; 6] = [2, 4, 6, 8, 10, 12];
    // A later broadcast from another device must not replace the peer.
    let (s, action) = s.on_receive(&OWN, &frame(other, broadcast_address(), b"anything"));
    assert_eq!(action, ReceiveAction::Ignore);
    // Neither must a unicast acknowledgment.
    let (s, action2) = s.on_receive(&OWN, &frame(other, OWN, b"CONNECTED"));
    assert_eq!(action2, ReceiveAction::Ignore);
    assert_eq!(s.peer(), Some(ROBOT));
    assert_eq!(s.action_index(), Some(0));
}

#[test]
fn first_probe_fires_at_once() {
    let s = DiscoveryState::new(1000);
    let (s, due) = s.tick(1000);
    assert!(due);
    assert_eq!(s.next_broadcast(), Some(1000 + PROBE_PERIOD_MS));
}

#[test]
fn probe_cadence() {
    let s = DiscoveryState::new(1000);
    let (s, due) = s.tick(999);
    assert!(!due);
    let (s, due) = s.tick(1000);
    assert!(due);
    // Not again before one full period has elapsed ...
    let (s, due) = s.tick(1000 + PROBE_PERIOD_MS - 1);
    assert!(!due);
    // ... and at the latest when it has.
    let (s, due) = s.tick(1000 + PROBE_PERIOD_MS);
    assert!(due);
    assert_eq!(s.next_broadcast(), Some(1000 + 2 * PROBE_PERIOD_MS));
}

#[test]
fn no_probe_once_connected() {
    let s = connected_state();
    let (s, due) = s.tick(1_000_000);
    assert!(!due);
    assert!(s.is_connected());
}

#[test]
fn cyclic_dispatch_repeats_after_four() {
    let s = connected_state();
    assert_eq!(s.action_index(), Some(0));
    let mut state = s;
    let mut tags: Vec<Vec<u8>> = Vec::new();
    for _ in 0..ACTION_COUNT {
        let (next, action) = state.dispatch_next();
        tags.push(action_to_msg(&action));
        state = next;
    }
    assert_eq!(
        tags,
        vec![b"Move".to_vec(), b"Break".to_vec(), b"Accel".to_vec(), b"Halt".to_vec()]
    );
    // After exactly four dispatches the position is back at its initial
    // value and the sequence repeats identically.
    assert_eq!(state.action_index(), Some(0));
    let (state, action) = state.dispatch_next();
    assert_eq!(action, Actions::Move);
    assert_eq!(state.action_index(), Some(1));
}

#[test]
fn dispatch_advances_whether_or_not_the_send_went_through() {
    // The dispatcher never sees the send result: the new state is fixed
    // before the caller sends, and a failure is absorbed by policy.
    let s = connected_state();
    let (s, _) = s.dispatch_next();
    assert_eq!(s.action_index(), Some(1));
    assert_eq!(
        send_failure_policy(&SendPhase::SteadyDispatch),
        SendFailurePolicy::Continue
    );
}

#[test]
fn discovery_send_failures_are_fatal() {
    assert_eq!(send_failure_policy(&SendPhase::DiscoveryAck), SendFailurePolicy::Fatal);
    assert_eq!(send_failure_policy(&SendPhase::DiscoveryProbe), SendFailurePolicy::Fatal);
}

#[test]
fn wire_payloads() {
    assert_eq!(probe_payload(), b"CONTROLLER_PING".to_vec());
    assert_eq!(ack_payload(), b"CONNECTED".to_vec());
    assert_eq!(action_to_msg(&Actions::Move), b"Move".to_vec());
    assert_eq!(action_to_msg(&Actions::Break), b"Break".to_vec());
    assert_eq!(action_to_msg(&Actions::Accel), b"Accel".to_vec());
    assert_eq!(action_to_msg(&Actions::Halt), b"Halt".to_vec());
}

#[test]
fn action_lookup_order() {
    assert_eq!(action_at(0), Actions::Move);
    assert_eq!(action_at(1), Actions::Break);
    assert_eq!(action_at(2), Actions::Accel);
    assert_eq!(action_at(3), Actions::Halt);
}

#[test]
fn ack_marker_is_matched_exactly() {
    assert!(payload_is_ack(&b"CONNECTED".to_vec()));
    assert!(!payload_is_ack(&b"CONNECTED ".to_vec()));
    assert!(!payload_is_ack(&b"CONNECTE".to_vec()));
    assert!(!payload_is_ack(&b"connected".to_vec()));
    assert!(!payload_is_ack(&b"".to_vec()));
}

#[test]
fn broadcast_sentinel_and_address_equality() {
    assert_eq!(broadcast_address(), [0xff; 6]);
    assert!(addresses_equal(&OWN, &OWN));
    assert!(!addresses_equal(&OWN, &ROBOT));
    assert!(!addresses_equal(&OWN, &broadcast_address()));
}

#[test]
fn dispatch_pacing_constant() {
    assert_eq!(DISPATCH_INTERVAL_MS, 5000);
    assert_eq!(PROBE_PERIOD_MS, 2000);
}
