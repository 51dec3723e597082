//! The canonical events the sampler produces: the immutable values that
//! cross from the polling thread to the consuming thread.

use vstd::prelude::*;

use crate::codes::EvCode;

verus! {

/// What happened on a device during one sampling tick: a connectivity
/// transition, or a single changed field of its state.
#[derive(Clone, Copy, Debug, Eq, PartialEq, Structural)]
pub enum RawEventType {
    ButtonPressed(EvCode),
    ButtonReleased(EvCode),
    AxisValueChanged(i32, EvCode),
    Connected,
    Disconnected,
}

/// One canonical event: which device slot it concerns and what happened.
#[derive(Clone, Copy, Debug, Eq, PartialEq, Structural)]
pub struct RawEvent {
    pub id: usize,
    pub event: RawEventType,
}

impl RawEvent {
    pub fn new(id: usize, event: RawEventType) -> (r: RawEvent)
        ensures
            r == (RawEvent { id, event }),
    {
        RawEvent { id, event }
    }
}

/// True of the two events that report a connectivity transition.
pub open spec fn is_connectivity_event(e: RawEvent) -> bool {
    e.event == RawEventType::Connected || e.event == RawEventType::Disconnected
}

/// The subsequence of connectivity transitions in an event sequence, in
/// order.
pub open spec fn connectivity_events(evs: Seq<RawEvent>) -> Seq<RawEvent>
    decreases evs.len(),
{
    if evs.len() == 0 {
        Seq::empty()
    } else if is_connectivity_event(evs[0]) {
        seq![evs[0]] + connectivity_events(evs.drop_first())
    } else {
        connectivity_events(evs.drop_first())
    }
}

/// Selecting the connectivity transitions distributes over concatenation.
pub proof fn lemma_connectivity_events_add(x: Seq<RawEvent>, y: Seq<RawEvent>)
    ensures
        connectivity_events(x + y) == connectivity_events(x) + connectivity_events(y),
    decreases x.len(),
{
    if x.len() == 0 {
        assert(x + y =~= y);
        assert(connectivity_events(x) + connectivity_events(y) =~= connectivity_events(y));
    } else {
        assert((x + y).drop_first() =~= x.drop_first() + y);
        lemma_connectivity_events_add(x.drop_first(), y);
        if is_connectivity_event(x[0]) {
            assert(seq![x[0]] + (connectivity_events(x.drop_first()) + connectivity_events(y))
                =~= (seq![x[0]] + connectivity_events(x.drop_first())) + connectivity_events(y));
        }
    }
}

/// A sequence holding a single event that is not a connectivity transition
/// contributes no connectivity events.
pub proof fn lemma_connectivity_events_single(e: RawEvent)
    requires
        !is_connectivity_event(e),
    ensures
        connectivity_events(seq![e]) == Seq::<RawEvent>::empty(),
{
    assert(seq![e].drop_first() =~= Seq::<RawEvent>::empty());
    assert(connectivity_events(Seq::<RawEvent>::empty()) == Seq::<RawEvent>::empty());
    assert(connectivity_events(seq![e]) == connectivity_events(seq![e].drop_first()));
}

/// True when every event in the sequence names device slot `id`.
pub open spec fn all_events_name_slot(id: usize, evs: Seq<RawEvent>) -> bool {
    forall|k: int| 0 <= k < evs.len() ==> (#[trigger] evs[k]).id == id
}

/// Attribution to one slot is preserved by concatenation.
pub proof fn lemma_all_events_name_slot_add(id: usize, x: Seq<RawEvent>, y: Seq<RawEvent>)
    requires
        all_events_name_slot(id, x),
        all_events_name_slot(id, y),
    ensures
        all_events_name_slot(id, x + y),
{
    assert forall|k: int| 0 <= k < (x + y).len() implies (#[trigger] (x + y)[k]).id == id by {
        if k < x.len() {
            assert((x + y)[k] == x[k]);
        } else {
            assert((x + y)[k] == y[k - x.len()]);
        }
    }
}

/// A sequence holding a single connectivity transition keeps exactly that
/// one event.
pub proof fn lemma_connectivity_events_single_conn(e: RawEvent)
    requires
        is_connectivity_event(e),
    ensures
        connectivity_events(seq![e]) == seq![e],
{
    assert(seq![e].drop_first() =~= Seq::<RawEvent>::empty());
    assert(connectivity_events(Seq::<RawEvent>::empty()) == Seq::<RawEvent>::empty());
    assert(connectivity_events(seq![e]) == seq![seq![e][0]] + connectivity_events(
        seq![e].drop_first(),
    ));
    assert(seq![seq![e][0]] + Seq::<RawEvent>::empty() =~= seq![e]);
}

} // verus!
