//! System-wide laws of the control loop, stated over whole event
//! sequences and proved against the transition specifications of
//! [`crate::discovery`].

use crate::discovery::{DiscoveryState, InboundFrame, PROBE_PERIOD_MS};
use vstd::prelude::*;

verus! {

/// One thing the control loop can observe or do in an iteration.
pub enum Event {
    /// An inbound frame was polled and fed to the controller.
    Inbound(InboundFrame),
    /// The broadcast timer was evaluated at this clock value.
    Clock(u64),
    /// One steady-state command dispatch.
    Dispatch,
}

/// The state after one event.  A dispatch happens only once a peer is
/// known; the loop never reaches it while searching.
pub open spec fn spec_step(s: DiscoveryState, own_address: [u8; 6], e: Event) -> DiscoveryState {
    match e {
        Event::Inbound(frame) => s.spec_after_receive(own_address, frame),
        Event::Clock(now) => s.spec_after_tick(now),
        Event::Dispatch => if s is Connected {
            s.spec_after_dispatch()
        } else {
            s
        },
    }
}

/// Does this event make the controller emit a broadcast probe?
pub open spec fn spec_emits_probe(s: DiscoveryState, e: Event) -> bool {
    e matches Event::Clock(now) && s.spec_probe_due(now)
}

/// The state after a whole sequence of events.
pub open spec fn spec_run(
    s: DiscoveryState,
    own_address: [u8; 6],
    events: Seq<Event>,
) -> DiscoveryState
    decreases events.len(),
{
    if events.len() == 0 {
        s
    } else {
        spec_run(spec_step(s, own_address, events[0]), own_address, events.drop_first())
    }
}

/// The clock value of an event stays far enough from the top of `u64`
/// for the deadline arithmetic.
pub open spec fn spec_clock_in_range(e: Event) -> bool {
    e matches Event::Clock(now) ==> now <= u64::MAX - PROBE_PERIOD_MS
}

/// Once `Connected`, one event emits no probe and keeps the peer; an
/// inbound frame or a clock tick changes nothing at all.
pub proof fn lemma_connected_step(s: DiscoveryState, own_address: [u8; 6], e: Event)
    requires
        s is Connected,
    ensures
        !spec_emits_probe(s, e),
        spec_step(s, own_address, e) is Connected,
        spec_step(s, own_address, e)->peer == s->peer,
        !(e is Dispatch) ==> spec_step(s, own_address, e) == s,
        s.wf() ==> spec_step(s, own_address, e).wf(),
{
}

/// Gating: however the run continues, once `Connected` the controller
/// never emits another broadcast probe, stays `Connected`, and keeps
/// the peer it adopted.
pub proof fn lemma_gating(s: DiscoveryState, own_address: [u8; 6], events: Seq<Event>)
    requires
        s is Connected,
    ensures
        spec_run(s, own_address, events) is Connected,
        spec_run(s, own_address, events)->peer == s->peer,
        forall|i: int|
            0 <= i < events.len() ==> !spec_emits_probe(
                #[trigger] spec_run(s, own_address, events.take(i)),
                events[i],
            ),
    decreases events.len(),
{
    if events.len() > 0 {
        let s1 = spec_step(s, own_address, events[0]);
        let rest = events.drop_first();
        lemma_connected_step(s, own_address, events[0]);
        lemma_gating(s1, own_address, rest);
        assert forall|i: int| 0 <= i < events.len() implies !spec_emits_probe(
            #[trigger] spec_run(s, own_address, events.take(i)),
            events[i],
        ) by {
            if i == 0 {
                assert(events.take(0) =~= Seq::<Event>::empty());
            } else {
                assert(events.take(i).drop_first() =~= rest.take(i - 1));
                assert(spec_run(s, own_address, events.take(i)) == spec_run(
                    s1,
                    own_address,
                    rest.take(i - 1),
                ));
                assert(rest[i - 1] == events[i]);
            }
        }
    }
}

/// Idempotence: once `Connected`, a run of inbound frames and clock
/// ticks — of any shape, in any number — leaves the state untouched.
pub proof fn lemma_connected_frames_no_effect(
    s: DiscoveryState,
    own_address: [u8; 6],
    events: Seq<Event>,
)
    requires
        s is Connected,
        forall|k: int| 0 <= k < events.len() ==> !(#[trigger] events[k] is Dispatch),
    ensures
        spec_run(s, own_address, events) == s,
    decreases events.len(),
{
    if events.len() > 0 {
        lemma_connected_step(s, own_address, events[0]);
        let rest = events.drop_first();
        assert forall|k: int| 0 <= k < rest.len() implies !(#[trigger] rest[k] is Dispatch) by {
            assert(rest[k] == events[k + 1]);
        }
        lemma_connected_frames_no_effect(s, own_address, rest);
    }
}

/// One searching step, exactly: a probe fires if and only if the clock
/// reached the deadline; a firing probe moves the deadline one period
/// past the clock; everything else leaves the deadline alone.
pub proof fn lemma_deadline_step(s: DiscoveryState, own_address: [u8; 6], e: Event)
    requires
        s is Searching,
        spec_clock_in_range(e),
    ensures
        spec_emits_probe(s, e) <==> (e matches Event::Clock(now) && now >= s->next_broadcast),
        spec_emits_probe(s, e) ==> (e matches Event::Clock(now) && spec_step(s, own_address, e)
            == (DiscoveryState::Searching { next_broadcast: (now + PROBE_PERIOD_MS) as u64 })),
        !spec_emits_probe(s, e) && spec_step(s, own_address, e) is Searching ==> spec_step(
            s,
            own_address,
            e,
        ) == s,
        spec_step(s, own_address, e) is Searching ==> spec_step(s, own_address, e)->next_broadcast
            >= s->next_broadcast,
{
}

/// While the controller keeps searching, the probe deadline never goes
/// below a bound it once reached.
pub proof fn lemma_deadline_run(
    s: DiscoveryState,
    own_address: [u8; 6],
    events: Seq<Event>,
    bound: u64,
)
    requires
        s is Searching,
        s->next_broadcast >= bound,
        forall|k: int| 0 <= k < events.len() ==> spec_clock_in_range(#[trigger] events[k]),
    ensures
        spec_run(s, own_address, events) is Searching ==> spec_run(s, own_address, events)
            ->next_broadcast >= bound,
    decreases events.len(),
{
    if events.len() > 0 {
        let s1 = spec_step(s, own_address, events[0]);
        let rest = events.drop_first();
        assert forall|k: int| 0 <= k < rest.len() implies spec_clock_in_range(
            #[trigger] rest[k],
        ) by {
            assert(rest[k] == events[k + 1]);
        }
        if s1 is Searching {
            lemma_deadline_step(s, own_address, events[0]);
            lemma_deadline_run(s1, own_address, rest, bound);
        } else {
            lemma_gating(s1, own_address, rest);
        }
    }
}

/// Running a concatenation is running both halves in turn.
pub proof fn lemma_run_append(s: DiscoveryState, own_address: [u8; 6], a: Seq<Event>, b: Seq<Event>)
    ensures
        spec_run(s, own_address, a + b) == spec_run(spec_run(s, own_address, a), own_address, b),
    decreases a.len(),
{
    if a.len() == 0 {
        assert(a + b =~= b);
    } else {
        let s1 = spec_step(s, own_address, a[0]);
        assert((a + b)[0] == a[0]);
        assert((a + b).drop_first() =~= a.drop_first() + b);
        lemma_run_append(s1, own_address, a.drop_first(), b);
    }
}

/// Running one more event is stepping the state the run reached.
pub proof fn lemma_run_snoc(s: DiscoveryState, own_address: [u8; 6], events: Seq<Event>, e: Event)
    ensures
        spec_run(s, own_address, events.push(e)) == spec_step(
            spec_run(s, own_address, events),
            own_address,
            e,
        ),
{
    let single = seq![e];
    assert(events.push(e) =~= events + single);
    lemma_run_append(s, own_address, events, single);
    let mid = spec_run(s, own_address, events);
    assert(single.drop_first() =~= Seq::<Event>::empty());
    let stepped = spec_step(mid, own_address, e);
    assert(single[0] == e);
    assert(spec_run(stepped, own_address, Seq::<Event>::empty()) == stepped);
    assert(spec_run(mid, own_address, single) == spec_run(
        stepped,
        own_address,
        single.drop_first(),
    ));
    assert(spec_run(mid, own_address, single) == stepped);
}

/// Probe cadence, upper side: two broadcast probes of one run are never
/// less than one probe period apart — the second clock value reads at
/// least `PROBE_PERIOD_MS` past the first.
pub proof fn lemma_probe_spacing(
    s: DiscoveryState,
    own_address: [u8; 6],
    events: Seq<Event>,
    i: int,
    j: int,
    t_i: u64,
    t_j: u64,
)
    requires
        0 <= i < j < events.len(),
        events[i] == Event::Clock(t_i),
        events[j] == Event::Clock(t_j),
        forall|k: int| 0 <= k < events.len() ==> spec_clock_in_range(#[trigger] events[k]),
        spec_emits_probe(spec_run(s, own_address, events.take(i)), events[i]),
        spec_emits_probe(spec_run(s, own_address, events.take(j)), events[j]),
    ensures
        t_j >= t_i + PROBE_PERIOD_MS,
{
    let s_i = spec_run(s, own_address, events.take(i));
    let s_next = spec_step(s_i, own_address, events[i]);
    lemma_deadline_step(s_i, own_address, events[i]);
    assert(s_next == (DiscoveryState::Searching { next_broadcast: (t_i + PROBE_PERIOD_MS) as u64 }));
    let mid = events.subrange(i + 1, j);
    assert(events.take(i + 1) =~= events.take(i).push(events[i]));
    lemma_run_snoc(s, own_address, events.take(i), events[i]);
    assert(events.take(j) =~= events.take(i + 1) + mid);
    lemma_run_append(s, own_address, events.take(i + 1), mid);
    assert forall|k: int| 0 <= k < mid.len() implies spec_clock_in_range(#[trigger] mid[k]) by {
        assert(mid[k] == events[i + 1 + k]);
    }
    lemma_deadline_run(s_next, own_address, mid, (t_i + PROBE_PERIOD_MS) as u64);
    let s_j = spec_run(s, own_address, events.take(j));
    assert(s_j == spec_run(s_next, own_address, mid));
    assert(s_j is Searching && t_j >= s_j->next_broadcast);
}

/// Probe cadence, lower side over a whole run: while no probe fires and
/// no frame is accepted, the deadline does not move — a clock value
/// that reaches it is never ignored, however long the quiet run was.
pub proof fn lemma_quiet_run_keeps_deadline(
    s: DiscoveryState,
    own_address: [u8; 6],
    events: Seq<Event>,
)
    requires
        s is Searching,
        forall|k: int|
            0 <= k < events.len() ==> !spec_emits_probe(
                #[trigger] spec_run(s, own_address, events.take(k)),
                events[k],
            ),
    ensures
        spec_run(s, own_address, events) is Searching ==> spec_run(s, own_address, events)
            ->next_broadcast == s->next_broadcast,
    decreases events.len(),
{
    if events.len() > 0 {
        assert(events.take(0) =~= Seq::<Event>::empty());
        assert(spec_run(s, own_address, events.take(0)) == s);
        assert(!spec_emits_probe(spec_run(s, own_address, events.take(0)), events[0]));
        let s1 = spec_step(s, own_address, events[0]);
        let rest = events.drop_first();
        if s1 is Connected {
            lemma_gating(s1, own_address, rest);
        } else {
            assert(s1 == s);
            assert forall|k: int| 0 <= k < rest.len() implies !spec_emits_probe(
                #[trigger] spec_run(s, own_address, rest.take(k)),
                rest[k],
            ) by {
                assert(events.take(k + 1).drop_first() =~= rest.take(k));
                assert(spec_run(s, own_address, events.take(k + 1)) == spec_run(
                    s1,
                    own_address,
                    rest.take(k),
                ));
                assert(rest[k] == events[k + 1]);
            }
            lemma_quiet_run_keeps_deadline(s, own_address, rest);
            assert(spec_run(s, own_address, events) == spec_run(s, own_address, rest));
        }
    }
}

/// Probe cadence, lower side: a due probe fires at once, and after it
/// fires the next one is due exactly one period later — any clock value
/// at or past that deadline fires again.
pub proof fn lemma_probe_refires(s: DiscoveryState, now: u64)
    requires
        s is Searching,
        now <= u64::MAX - PROBE_PERIOD_MS,
        s.spec_probe_due(now),
    ensures
        s.spec_after_tick(now) == (DiscoveryState::Searching {
            next_broadcast: (now + PROBE_PERIOD_MS) as u64,
        }),
        forall|later: u64|
            later >= now + PROBE_PERIOD_MS ==> #[trigger] s.spec_after_tick(now).spec_probe_due(
                later,
            ),
{
}

/// Cyclic dispatch: after exactly four dispatches the state — peer and
/// position — is back to what it was, so the emitted tag sequence
/// repeats with period four.
pub proof fn lemma_cyclic_dispatch(s: DiscoveryState)
    requires
        s is Connected,
        s.wf(),
    ensures
        s.spec_after_dispatch().spec_after_dispatch().spec_after_dispatch().spec_after_dispatch()
            == s,
        s.spec_after_dispatch().spec_after_dispatch().spec_after_dispatch().spec_after_dispatch()
            .spec_dispatch_action() == s.spec_dispatch_action(),
{
}

} // verus!
