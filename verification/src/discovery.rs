//! The discovery state machine, probe timing, cyclic command dispatch
//! and the send-failure policy.
//!
//! The control loop owns one [`DiscoveryState`] value.  Transitions are
//! explicit functions that return the new state together with what the
//! caller must do with the transport: transitions themselves perform no
//! I/O.

use crate::actions::{action_at, spec_action_at, Actions, ACTION_COUNT};
use crate::address::{addresses_equal, broadcast_address, spec_broadcast_address};
use vstd::prelude::*;

verus! {

/// Milliseconds between two broadcast discovery probes.
pub const PROBE_PERIOD_MS: u64 = 2000;

/// Milliseconds of pacing after every steady-state dispatch; the caller
/// blocks for this long before the next loop iteration.
pub const DISPATCH_INTERVAL_MS: u64 = 5000;

/// The handshake acknowledgment marker, ASCII `"CONNECTED"`.
pub open spec fn spec_ack_payload() -> Seq<u8> {
    seq![67u8, 79u8, 78u8, 78u8, 69u8, 67u8, 84u8, 69u8, 68u8]
}

/// The broadcast probe payload, ASCII `"CONTROLLER_PING"`.
pub open spec fn spec_probe_payload() -> Seq<u8> {
    seq![67u8, 79u8, 78u8, 84u8, 82u8, 79u8, 76u8, 76u8, 69u8, 82u8, 95u8, 80u8, 73u8, 78u8, 71u8]
}

/// The handshake acknowledgment payload as concrete bytes.
pub fn ack_payload() -> (r: Vec<u8>)
    ensures
        r@ == spec_ack_payload(),
{
    let mut r: Vec<u8> = Vec::new();
    r.push(67);
    r.push(79);
    r.push(78);
    r.push(78);
    r.push(69);
    r.push(67);
    r.push(84);
    r.push(69);
    r.push(68);
    proof {
        assert(r@ =~= spec_ack_payload());
    }
    r
}

/// The broadcast probe payload as concrete bytes.
pub fn probe_payload() -> (r: Vec<u8>)
    ensures
        r@ == spec_probe_payload(),
{
    let mut r: Vec<u8> = Vec::new();
    r.push(67);
    r.push(79);
    r.push(78);
    r.push(84);
    r.push(82);
    r.push(79);
    r.push(76);
    r.push(76);
    r.push(69);
    r.push(82);
    r.push(95);
    r.push(80);
    r.push(73);
    r.push(78);
    r.push(71);
    proof {
        assert(r@ =~= spec_probe_payload());
    }
    r
}

/// Does a payload equal the handshake acknowledgment marker?
///
/// A payload of any other shape — another marker, garbage, bytes that
/// are not UTF-8 — simply fails the comparison; it never faults.
pub fn payload_is_ack(payload: &Vec<u8>) -> (r: bool)
    ensures
        r <==> payload@ == spec_ack_payload(),
{
    proof {
        assert(spec_ack_payload().len() == 9);
    }
    if payload.len() != 9 {
        false
    } else {
        let r = payload[0] == 67 && payload[1] == 79 && payload[2] == 78 && payload[3] == 78
            && payload[4] == 69 && payload[5] == 67 && payload[6] == 84 && payload[7] == 69
            && payload[8] == 68;
        proof {
            if r {
                assert(payload@ =~= spec_ack_payload());
            }
        }
        r
    }
}

/// One inbound radio frame, as the transport hands it in.
#[derive(Debug)]
pub struct InboundFrame {
    /// Hardware address of the sender.
    pub source: [u8; 6],
    /// Destination: a unicast hardware address or the broadcast
    /// sentinel.
    pub destination: [u8; 6],
    /// Raw payload bytes, treated as an ASCII marker or command tag.
    pub payload: Vec<u8>,
}

/// What the caller must do with the transport after one inbound frame
/// has been classified.
#[derive(Clone, Copy, Debug, PartialEq, Eq, Structural)]
pub enum ReceiveAction {
    /// Nothing: the frame was ignored.
    Ignore,
    /// A unicast handshake acknowledgment was accepted: toggle the
    /// indicator once.  No reply is sent — the peer that sent the
    /// acknowledgment already considers the handshake complete.
    AcceptAck,
    /// A broadcast frame was accepted as peer discovery: toggle the
    /// indicator once, register the peer with the transport if it is
    /// absent, then send the acknowledgment payload to it as a unicast.
    AcceptBroadcast,
}

/// Where in the protocol a transport send happened.
#[derive(Clone, Copy, Debug, PartialEq, Eq, Structural)]
pub enum SendPhase {
    /// The periodic broadcast probe, while searching.
    DiscoveryProbe,
    /// The unicast handshake acknowledgment, on broadcast adoption.
    DiscoveryAck,
    /// A steady-state command dispatch.
    SteadyDispatch,
}

/// What to do when a transport send fails.
#[derive(Clone, Copy, Debug, PartialEq, Eq, Structural)]
pub enum SendFailurePolicy {
    /// Abort the process: no progress is possible without this channel.
    Fatal,
    /// Absorb the failure and keep the cadence alive.
    Continue,
}

/// The policy for each send phase.
pub open spec fn spec_send_failure_policy(phase: SendPhase) -> SendFailurePolicy {
    match phase {
        SendPhase::DiscoveryProbe => SendFailurePolicy::Fatal,
        SendPhase::DiscoveryAck => SendFailurePolicy::Fatal,
        SendPhase::SteadyDispatch => SendFailurePolicy::Continue,
    }
}

/// Decide whether a failed send aborts the process.  Both discovery
/// sends are fatal; steady-state command loss is absorbed.
pub fn send_failure_policy(phase: &SendPhase) -> (r: SendFailurePolicy)
    ensures
        r == spec_send_failure_policy(*phase),
{
    match phase {
        SendPhase::DiscoveryProbe => SendFailurePolicy::Fatal,
        SendPhase::DiscoveryAck => SendFailurePolicy::Fatal,
        SendPhase::SteadyDispatch => SendFailurePolicy::Continue,
    }
}

/// The two-phase state of the controller.  The transition from
/// `Searching` to `Connected` is one-directional: no path clears a
/// discovered peer.
#[derive(Clone, Copy, Debug)]
pub enum DiscoveryState {
    /// No peer known yet; `next_broadcast` is the deadline for the next
    /// broadcast probe.
    Searching {
        /// Deadline, in clock milliseconds, for the next probe.
        next_broadcast: u64,
    },
    /// A peer was adopted; commands are dispatched to it cyclically.
    Connected {
        /// The adopted peer's hardware address; never replaced.
        peer: [u8; 6],
        /// Position of the next command in the cyclic sequence.
        action_index: usize,
    },
}

impl DiscoveryState {
    /// Well-formedness: the dispatch position stays inside the command
    /// sequence.
    pub open spec fn wf(self) -> bool {
        self matches DiscoveryState::Connected { action_index, .. } ==> action_index < ACTION_COUNT
    }

    /// How one inbound frame is classified, given this device's own
    /// unicast address.  Frames matter only while `Searching`: a frame
    /// to the broadcast sentinel is accepted as discovery whatever its
    /// payload holds; a frame to this device's own address is accepted
    /// only with the acknowledgment marker; everything else — and every
    /// frame once `Connected` — is ignored.
    pub open spec fn spec_receive_action(
        self,
        own_address: [u8; 6],
        frame: InboundFrame,
    ) -> ReceiveAction {
        if self is Searching {
            if frame.destination@ == spec_broadcast_address() {
                ReceiveAction::AcceptBroadcast
            } else if frame.destination@ == own_address@ && frame.payload@ == spec_ack_payload() {
                ReceiveAction::AcceptAck
            } else {
                ReceiveAction::Ignore
            }
        } else {
            ReceiveAction::Ignore
        }
    }

    /// The state after one inbound frame: an accepted frame adopts its
    /// sender as the peer, an ignored one changes nothing.
    pub open spec fn spec_after_receive(
        self,
        own_address: [u8; 6],
        frame: InboundFrame,
    ) -> DiscoveryState {
        if self.spec_receive_action(own_address, frame) is Ignore {
            self
        } else {
            DiscoveryState::Connected { peer: frame.source, action_index: 0 }
        }
    }

    /// Is a broadcast probe due at clock value `now`?
    pub open spec fn spec_probe_due(self, now: u64) -> bool {
        self matches DiscoveryState::Searching { next_broadcast } && now >= next_broadcast
    }

    /// The state after one timer evaluation at clock value `now`: a due
    /// probe advances the deadline by one period, everything else
    /// changes nothing.
    pub open spec fn spec_after_tick(self, now: u64) -> DiscoveryState {
        if self.spec_probe_due(now) {
            DiscoveryState::Searching { next_broadcast: (now + PROBE_PERIOD_MS) as u64 }
        } else {
            self
        }
    }

    /// The command that the next dispatch emits.
    pub open spec fn spec_dispatch_action(self) -> Actions
        recommends
            self is Connected,
    {
        spec_action_at(self->action_index as int)
    }

    /// The state after one dispatch: the position advances by one and
    /// wraps at the end of the sequence.
    pub open spec fn spec_after_dispatch(self) -> DiscoveryState {
        match self {
            DiscoveryState::Connected { peer, action_index } => DiscoveryState::Connected {
                peer,
                action_index: ((action_index + 1) % (ACTION_COUNT as int)) as usize,
            },
            DiscoveryState::Searching { .. } => self,
        }
    }

    /// The initial state: searching, with the first probe due at once.
    pub fn new(now: u64) -> (s: DiscoveryState)
        ensures
            s == (DiscoveryState::Searching { next_broadcast: now }),
            s.wf(),
    {
        DiscoveryState::Searching { next_broadcast: now }
    }

    /// Feed one polled inbound frame in.  Returns the new state and
    /// what the caller must do with the transport and the indicator.
    pub fn on_receive(&self, own_address: &[u8; 6], frame: &InboundFrame) -> (r: (
        DiscoveryState,
        ReceiveAction,
    ))
        ensures
            r.1 == self.spec_receive_action(*own_address, *frame),
            r.0 == self.spec_after_receive(*own_address, *frame),
            self.wf() ==> r.0.wf(),
            self is Connected ==> r.0 == *self && r.1 == ReceiveAction::Ignore,
            r.1 !is Ignore ==> (r.0 == (DiscoveryState::Connected {
                peer: frame.source,
                action_index: 0,
            })),
    {
        match self {
            DiscoveryState::Searching { .. } => {
                let sentinel = broadcast_address();
                if addresses_equal(&frame.destination, &sentinel) {
                    (
                        DiscoveryState::Connected { peer: frame.source, action_index: 0 },
                        ReceiveAction::AcceptBroadcast,
                    )
                } else if addresses_equal(&frame.destination, own_address) && payload_is_ack(
                    &frame.payload,
                ) {
                    (
                        DiscoveryState::Connected { peer: frame.source, action_index: 0 },
                        ReceiveAction::AcceptAck,
                    )
                } else {
                    (*self, ReceiveAction::Ignore)
                }
            },
            DiscoveryState::Connected { .. } => (*self, ReceiveAction::Ignore),
        }
    }

    /// Evaluate the broadcast timer at clock value `now`.  Returns the
    /// new state and whether the caller must send a broadcast probe
    /// carrying [`spec_probe_payload`] now; a send failure there is
    /// fatal.
    pub fn tick(&self, now: u64) -> (r: (DiscoveryState, bool))
        requires
            now <= u64::MAX - PROBE_PERIOD_MS,
        ensures
            r.1 == self.spec_probe_due(now),
            r.0 == self.spec_after_tick(now),
            self.wf() ==> r.0.wf(),
            self is Connected ==> r.0 == *self && !r.1,
    {
        match self {
            DiscoveryState::Searching { next_broadcast } => {
                if now >= *next_broadcast {
                    (DiscoveryState::Searching { next_broadcast: now + PROBE_PERIOD_MS }, true)
                } else {
                    (*self, false)
                }
            },
            DiscoveryState::Connected { .. } => (*self, false),
        }
    }

    /// Take the next command of the cyclic sequence.  The caller sends
    /// its wire tag to the peer, discards the send result, and blocks
    /// for [`DISPATCH_INTERVAL_MS`] — the position advances whether or
    /// not the send went through.
    pub fn dispatch_next(&self) -> (r: (DiscoveryState, Actions))
        requires
            self is Connected,
            self.wf(),
        ensures
            r.1 == self.spec_dispatch_action(),
            r.0 == self.spec_after_dispatch(),
            r.0 is Connected,
            r.0.wf(),
            r.0->peer == self->peer,
    {
        match self {
            DiscoveryState::Connected { peer, action_index } => {
                let action = action_at(*action_index);
                let next_index: usize = if *action_index + 1 == ACTION_COUNT {
                    0
                } else {
                    *action_index + 1
                };
                (DiscoveryState::Connected { peer: *peer, action_index: next_index }, action)
            },
            DiscoveryState::Searching { .. } => unreached(),
        }
    }

    /// Is a peer known?
    pub fn is_connected(&self) -> (r: bool)
        ensures
            r <==> self is Connected,
    {
        match self {
            DiscoveryState::Connected { .. } => true,
            DiscoveryState::Searching { .. } => false,
        }
    }

    /// The adopted peer's address, if any.
    pub fn peer(&self) -> (r: Option<[u8; 6]>)
        ensures
            (*self) matches DiscoveryState::Connected { peer, .. } ==> r == Some(peer),
            self is Searching ==> r is None,
    {
        match self {
            DiscoveryState::Connected { peer, .. } => Some(*peer),
            DiscoveryState::Searching { .. } => None,
        }
    }

    /// The position of the next command, while connected.
    pub fn action_index(&self) -> (r: Option<usize>)
        ensures
            (*self) matches DiscoveryState::Connected { action_index, .. } ==> r == Some(
                action_index,
            ),
            self is Searching ==> r is None,
    {
        match self {
            DiscoveryState::Connected { action_index, .. } => Some(*action_index),
            DiscoveryState::Searching { .. } => None,
        }
    }

    /// The deadline for the next broadcast probe, while searching.
    pub fn next_broadcast(&self) -> (r: Option<u64>)
        ensures
            (*self) matches DiscoveryState::Searching { next_broadcast } ==> r == Some(
                next_broadcast,
            ),
            self is Connected ==> r is None,
    {
        match self {
            DiscoveryState::Searching { next_broadcast } => Some(*next_broadcast),
            DiscoveryState::Connected { .. } => None,
        }
    }
}

} // verus!
