//! The sampling step: one device slot, one tick. Given the outcome of the
//! native state query, the step decides the slot's new connectivity, keeps
//! the snapshot baseline, and produces the canonical events for the tick.
//! The loop that performs the queries, sleeps, and forwards the events runs
//! outside this crate and calls `slot_tick` once per polled slot.

use vstd::prelude::*;

use crate::diff::{compare_state, spec_compare, Snapshot};
use crate::diff::{lemma_compare_events_name_slot, lemma_compare_no_connectivity};
use crate::events::{
    all_events_name_slot, connectivity_events, lemma_all_events_name_slot_add,
    lemma_connectivity_events_add, lemma_connectivity_events_single_conn, RawEvent, RawEventType,
};

verus! {

/// Milliseconds the sampling thread sleeps between ticks.
pub const EVENT_THREAD_SLEEP_TIME: u64 = 10;

/// A slot marked disconnected is polled only on every ticks-th tick with
/// this period, to amortize the cost of querying absent hardware.
pub const ITERATIONS_TO_CHECK_IF_CONNECTED: u64 = 100;

/// The native status code for a successful state query.
pub const STATUS_SUCCESS: u32 = 0;

/// The native status code reporting that no device occupies the slot.
pub const STATUS_DEVICE_NOT_CONNECTED: u32 = 1167;

/// The three outcomes of one native state query.
#[derive(Clone, Copy, Debug, Eq, PartialEq, Structural)]
pub enum PollOutcome {
    /// The query succeeded: the opaque packet counter and the raw state it
    /// reported.
    Success(u32, Snapshot),
    /// The native layer reports no device in the slot.
    DeviceAbsent,
    /// The query failed for any other reason; the tick is treated as "no
    /// change" and never surfaced.
    Failure,
}

/// How a raw native status code is read: success and "device absent" are
/// meaningful, every other code is a transient failure.
pub open spec fn spec_poll_outcome(status: u32, packet: u32, snapshot: Snapshot) -> PollOutcome {
    if status == STATUS_SUCCESS {
        PollOutcome::Success(packet, snapshot)
    } else if status == STATUS_DEVICE_NOT_CONNECTED {
        PollOutcome::DeviceAbsent
    } else {
        PollOutcome::Failure
    }
}

/// Classifies a raw native status code together with the state the query
/// wrote. The state arguments are only meaningful — and only used — when
/// the status reports success.
pub fn poll_outcome_from_status(status: u32, packet: u32, snapshot: Snapshot) -> (r: PollOutcome)
    ensures
        r == spec_poll_outcome(status, packet, snapshot),
{
    if status == STATUS_SUCCESS {
        PollOutcome::Success(packet, snapshot)
    } else if status == STATUS_DEVICE_NOT_CONNECTED {
        PollOutcome::DeviceAbsent
    } else {
        PollOutcome::Failure
    }
}

/// Everything the sampler keeps per device slot: the connectivity flag,
/// the last published snapshot, and the opaque packet counter that came
/// with it.
#[derive(Clone, Copy, Debug, Eq, PartialEq, Structural)]
pub struct SlotState {
    pub connected: bool,
    pub last: Snapshot,
    pub packet: u32,
}

impl SlotState {
    /// The state of a slot before its first tick: the given startup
    /// connectivity, an all-zero baseline, and packet counter zero.
    pub fn initial(connected: bool) -> (r: SlotState)
        ensures
            r == (SlotState {
                connected,
                last: Snapshot {
                    buttons: 0u16,
                    left_trigger: 0u8,
                    right_trigger: 0u8,
                    thumb_lx: 0i16,
                    thumb_ly: 0i16,
                    thumb_rx: 0i16,
                    thumb_ry: 0i16,
                },
                packet: 0u32,
            }),
    {
        SlotState { connected, last: Snapshot::zeroed(), packet: 0 }
    }
}

/// The slot state after one tick with the given poll outcome.
pub open spec fn spec_tick_state(s: SlotState, o: PollOutcome) -> SlotState {
    match o {
        PollOutcome::Success(packet, snap) => {
            if !s.connected {
                SlotState { connected: true, last: snap, packet }
            } else if packet == s.packet {
                s
            } else {
                SlotState { connected: true, last: snap, packet }
            }
        },
        PollOutcome::DeviceAbsent => {
            if s.connected {
                SlotState { connected: false, last: s.last, packet: s.packet }
            } else {
                s
            }
        },
        PollOutcome::Failure => s,
    }
}

/// The events one tick emits for slot `id`: `Connected` on a fresh
/// success, nothing when the packet counter is unchanged, the full diff
/// against the baseline otherwise; `Disconnected` when a connected slot
/// reports absent; nothing for any other failure.
pub open spec fn spec_tick_events(id: usize, s: SlotState, o: PollOutcome) -> Seq<RawEvent> {
    match o {
        PollOutcome::Success(packet, snap) => {
            if !s.connected {
                seq![RawEvent { id, event: RawEventType::Connected }]
            } else if packet == s.packet {
                Seq::empty()
            } else {
                spec_compare(id, snap, s.last)
            }
        },
        PollOutcome::DeviceAbsent => {
            if s.connected {
                seq![RawEvent { id, event: RawEventType::Disconnected }]
            } else {
                Seq::empty()
            }
        },
        PollOutcome::Failure => Seq::empty(),
    }
}

/// Steps one slot through one tick. A success on a disconnected slot
/// reconnects it and takes the queried state as the new baseline with no
/// diff against stale data; a success with an unchanged packet counter is
/// a no-op; a success with a new packet counter diffs against the baseline
/// and replaces it; "device absent" disconnects a connected slot; any
/// other failure changes nothing.
pub fn slot_tick(slot: &mut SlotState, id: usize, outcome: PollOutcome) -> (events: Vec<RawEvent>)
    ensures
        *final(slot) == spec_tick_state(*old(slot), outcome),
        events@ == spec_tick_events(id, *old(slot), outcome),
{
    match outcome {
        PollOutcome::Success(packet, snap) => {
            if !slot.connected {
                slot.connected = true;
                slot.last = snap;
                slot.packet = packet;
                let mut events: Vec<RawEvent> = Vec::new();
                events.push(RawEvent { id, event: RawEventType::Connected });
                proof {
                    assert(events@ =~= spec_tick_events(id, *old(slot), outcome));
                }
                events
            } else if packet == slot.packet {
                Vec::new()
            } else {
                let events = compare_state(id, &snap, &slot.last);
                slot.last = snap;
                slot.packet = packet;
                events
            }
        },
        PollOutcome::DeviceAbsent => {
            if slot.connected {
                slot.connected = false;
                let mut events: Vec<RawEvent> = Vec::new();
                events.push(RawEvent { id, event: RawEventType::Disconnected });
                proof {
                    assert(events@ =~= spec_tick_events(id, *old(slot), outcome));
                }
                events
            } else {
                Vec::new()
            }
        },
        PollOutcome::Failure => Vec::new(),
    }
}

/// Whether the sampler queries a slot this tick: connected slots are
/// polled every tick, disconnected ones only when the tick counter is at a
/// multiple of the check period.
pub fn should_poll(connected: bool, counter: u64) -> (r: bool)
    ensures
        r == (connected || counter % ITERATIONS_TO_CHECK_IF_CONNECTED == 0),
{
    connected || counter % ITERATIONS_TO_CHECK_IF_CONNECTED == 0
}

/// The slot state after a whole sequence of ticks.
pub open spec fn spec_run_state(s: SlotState, outcomes: Seq<PollOutcome>) -> SlotState
    decreases outcomes.len(),
{
    if outcomes.len() == 0 {
        s
    } else {
        spec_run_state(spec_tick_state(s, outcomes[0]), outcomes.drop_first())
    }
}

/// Every event a whole sequence of ticks emits for slot `id`, in order.
pub open spec fn spec_run_events(id: usize, s: SlotState, outcomes: Seq<PollOutcome>) -> Seq<
    RawEvent,
> decreases outcomes.len(),
{
    if outcomes.len() == 0 {
        Seq::empty()
    } else {
        spec_tick_events(id, s, outcomes[0]) + spec_run_events(
            id,
            spec_tick_state(s, outcomes[0]),
            outcomes.drop_first(),
        )
    }
}

/// A sequence of connectivity events strictly alternates, starting from
/// the given connectivity: a connected slot can only disconnect next, a
/// disconnected one can only connect, and every event names slot `id`.
pub open spec fn alternates_from(connected: bool, id: usize, evs: Seq<RawEvent>) -> bool
    decreases evs.len(),
{
    evs.len() == 0 || {
        &&& evs[0] == (RawEvent {
            id,
            event: if connected {
                RawEventType::Disconnected
            } else {
                RawEventType::Connected
            },
        })
        &&& alternates_from(!connected, id, evs.drop_first())
    }
}

/// Every event a tick emits names the ticked slot.
pub proof fn lemma_tick_events_name_slot(id: usize, s: SlotState, o: PollOutcome)
    ensures
        all_events_name_slot(id, spec_tick_events(id, s, o)),
{
    match o {
        PollOutcome::Success(packet, snap) => {
            if s.connected && packet != s.packet {
                lemma_compare_events_name_slot(id, snap, s.last);
            }
        },
        PollOutcome::DeviceAbsent => {
        },
        PollOutcome::Failure => {
        },
    }
}

/// Every event a whole run emits names the run's slot.
pub proof fn lemma_run_events_name_slot(id: usize, s: SlotState, outcomes: Seq<PollOutcome>)
    ensures
        all_events_name_slot(id, spec_run_events(id, s, outcomes)),
    decreases outcomes.len(),
{
    if outcomes.len() > 0 {
        let head = spec_tick_events(id, s, outcomes[0]);
        let tail = spec_run_events(id, spec_tick_state(s, outcomes[0]), outcomes.drop_first());
        lemma_tick_events_name_slot(id, s, outcomes[0]);
        lemma_run_events_name_slot(id, spec_tick_state(s, outcomes[0]), outcomes.drop_first());
        lemma_all_events_name_slot_add(id, head, tail);
    }
}

/// Field events are emitted only while a slot is connected: a tick on a
/// disconnected slot can contribute nothing but its own `Connected`
/// transition.
pub proof fn lemma_disconnected_slot_emits_only_connectivity(
    id: usize,
    s: SlotState,
    o: PollOutcome,
)
    requires
        !s.connected,
    ensures
        spec_tick_events(id, s, o) == connectivity_events(spec_tick_events(id, s, o)),
{
    match o {
        PollOutcome::Success(_, _) => {
            lemma_connectivity_events_single_conn(
                RawEvent { id, event: RawEventType::Connected },
            );
        },
        PollOutcome::DeviceAbsent => {
        },
        PollOutcome::Failure => {
        },
    }
}

/// Over any sequence of poll outcomes, the connectivity events a slot
/// emits strictly alternate: never two `Connected` without an intervening
/// `Disconnected`, and vice versa, starting from the slot's current
/// connectivity.
pub proof fn lemma_run_connectivity_alternates(
    id: usize,
    s: SlotState,
    outcomes: Seq<PollOutcome>,
)
    ensures
        alternates_from(s.connected, id, connectivity_events(spec_run_events(id, s, outcomes))),
    decreases outcomes.len(),
{
    if outcomes.len() == 0 {
        assert(connectivity_events(spec_run_events(id, s, outcomes)) =~= Seq::<
            RawEvent,
        >::empty());
    } else {
        let o = outcomes[0];
        let s2 = spec_tick_state(s, o);
        let head = spec_tick_events(id, s, o);
        let tail = spec_run_events(id, s2, outcomes.drop_first());
        lemma_connectivity_events_add(head, tail);
        lemma_run_connectivity_alternates(id, s2, outcomes.drop_first());
        match o {
            PollOutcome::Success(packet, snap) => {
                if !s.connected {
                    let e = RawEvent { id, event: RawEventType::Connected };
                    lemma_connectivity_events_single_conn(e);
                    assert(connectivity_events(head) == seq![e]);
                    assert((seq![e] + connectivity_events(tail)).drop_first()
                        =~= connectivity_events(tail));
                } else if packet == s.packet {
                    assert(connectivity_events(head) =~= Seq::<RawEvent>::empty());
                    assert(Seq::<RawEvent>::empty() + connectivity_events(tail)
                        =~= connectivity_events(tail));
                } else {
                    lemma_compare_no_connectivity(id, snap, s.last);
                    assert(Seq::<RawEvent>::empty() + connectivity_events(tail)
                        =~= connectivity_events(tail));
                }
            },
            PollOutcome::DeviceAbsent => {
                if s.connected {
                    let e = RawEvent { id, event: RawEventType::Disconnected };
                    lemma_connectivity_events_single_conn(e);
                    assert(connectivity_events(head) == seq![e]);
                    assert((seq![e] + connectivity_events(tail)).drop_first()
                        =~= connectivity_events(tail));
                } else {
                    assert(connectivity_events(head) =~= Seq::<RawEvent>::empty());
                    assert(Seq::<RawEvent>::empty() + connectivity_events(tail)
                        =~= connectivity_events(tail));
                }
            },
            PollOutcome::Failure => {
                assert(connectivity_events(head) =~= Seq::<RawEvent>::empty());
                assert(Seq::<RawEvent>::empty() + connectivity_events(tail)
                    =~= connectivity_events(tail));
            },
        }
    }
}

} // verus!
