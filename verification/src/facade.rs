//! The consumer-facing registry: a fixed set of device handles, a shared
//! placeholder for every id outside the valid range, and the non-blocking
//! event stream that first drains the buffered startup events and then the
//! live channel fed by the sampling thread.

use vstd::prelude::*;

use std::sync::mpsc::Receiver;

use crate::events::{RawEvent, RawEventType};
use crate::gamepad::{gamepad_new, Gamepad, Status, PLACEHOLDER_ID};

verus! {

/// The fixed number of device slots.
pub const SLOT_COUNT: usize = 4;

#[verifier::external_type_specification]
#[verifier::external_body]
#[verifier::reject_recursive_types(T)]
pub struct ExReceiver<T>(Receiver<T>);

/// Relies on std::sync::mpsc::Receiver::try_recv: non-blocking; yields the
/// next queued event when one is ready and nothing when the queue is empty
/// or the sender is gone. What arrives depends on the producer thread, so
/// nothing more is promised of the result.
#[verifier::external_body]
fn try_recv_event(rx: &Receiver<RawEvent>) -> (r: Option<RawEvent>) {
    rx.try_recv().ok()
}

/// The buffered startup events: one `Connected` per slot that was already
/// connected when the registry was built, in slot-index order.
pub open spec fn spec_startup_events(c0: bool, c1: bool, c2: bool, c3: bool) -> Seq<RawEvent> {
    (if c0 {
        seq![RawEvent { id: 0usize, event: RawEventType::Connected }]
    } else {
        Seq::empty()
    }) + (if c1 {
        seq![RawEvent { id: 1usize, event: RawEventType::Connected }]
    } else {
        Seq::empty()
    }) + (if c2 {
        seq![RawEvent { id: 2usize, event: RawEventType::Connected }]
    } else {
        Seq::empty()
    }) + (if c3 {
        seq![RawEvent { id: 3usize, event: RawEventType::Connected }]
    } else {
        Seq::empty()
    })
}

/// The registry. The four slot handles and the placeholder are built once;
/// the receiver is the consuming end of the channel the sampling thread
/// pushes into.
pub struct Gilrs {
    pub gamepad0: Gamepad,
    pub gamepad1: Gamepad,
    pub gamepad2: Gamepad,
    pub gamepad3: Gamepad,
    pub rx: Receiver<RawEvent>,
    pub not_observed: Gamepad,
    pub additional_events: Vec<RawEvent>,
}

impl Gilrs {
    /// The handle the registry serves for an id: the slot's own handle in
    /// range, the shared placeholder outside it.
    pub open spec fn spec_slot(self, id: usize) -> Gamepad {
        if id == 0 {
            self.gamepad0
        } else if id == 1 {
            self.gamepad1
        } else if id == 2 {
            self.gamepad2
        } else if id == 3 {
            self.gamepad3
        } else {
            self.not_observed
        }
    }

    /// The registry as built: each slot handle carries its own index, and
    /// the placeholder is never observed.
    pub open spec fn wf(self) -> bool {
        &&& self.gamepad0.id == 0
        &&& self.gamepad1.id == 1
        &&& self.gamepad2.id == 2
        &&& self.gamepad3.id == 3
        &&& self.not_observed.id == PLACEHOLDER_ID
        &&& self.not_observed.status == Status::NotObserved
    }

    /// Builds the registry from the startup connectivity of the four
    /// slots and the receiving end of the event channel. Buffers one
    /// `Connected` event per already-connected slot, in slot-index order,
    /// to be delivered before anything from the live channel.
    pub fn new(c0: bool, c1: bool, c2: bool, c3: bool, rx: Receiver<RawEvent>) -> (r: Gilrs)
        ensures
            r.wf(),
            r.gamepad0.status == (if c0 {
                Status::Connected
            } else {
                Status::NotObserved
            }),
            r.gamepad1.status == (if c1 {
                Status::Connected
            } else {
                Status::NotObserved
            }),
            r.gamepad2.status == (if c2 {
                Status::Connected
            } else {
                Status::NotObserved
            }),
            r.gamepad3.status == (if c3 {
                Status::Connected
            } else {
                Status::NotObserved
            }),
            r.additional_events@ == spec_startup_events(c0, c1, c2, c3),
    {
        let mut additional_events: Vec<RawEvent> = Vec::new();
        if c0 {
            additional_events.push(RawEvent::new(0, RawEventType::Connected));
        }
        if c1 {
            additional_events.push(RawEvent::new(1, RawEventType::Connected));
        }
        if c2 {
            additional_events.push(RawEvent::new(2, RawEventType::Connected));
        }
        if c3 {
            additional_events.push(RawEvent::new(3, RawEventType::Connected));
        }
        proof {
            assert(additional_events@ =~= spec_startup_events(c0, c1, c2, c3));
        }
        Gilrs {
            gamepad0: gamepad_new(0, c0),
            gamepad1: gamepad_new(1, c1),
            gamepad2: gamepad_new(2, c2),
            gamepad3: gamepad_new(3, c3),
            rx,
            not_observed: Gamepad::none(),
            additional_events,
        }
    }

    /// The next canonical event, without blocking: first any buffered
    /// startup event, in order, then whatever the live channel holds,
    /// `None` when both are empty.
    pub fn next_event(&mut self) -> (r: Option<RawEvent>)
        ensures
            old(self).additional_events@.len() > 0 ==> {
                &&& r == Some(old(self).additional_events@[0])
                &&& final(self).additional_events@ == old(self).additional_events@.drop_first()
            },
            old(self).additional_events@.len() == 0 ==> final(self).additional_events@ == old(
                self,
            ).additional_events@,
            final(self).gamepad0 == old(self).gamepad0,
            final(self).gamepad1 == old(self).gamepad1,
            final(self).gamepad2 == old(self).gamepad2,
            final(self).gamepad3 == old(self).gamepad3,
            final(self).not_observed == old(self).not_observed,
            old(self).wf() ==> final(self).wf(),
    {
        if self.additional_events.len() > 0 {
            let e = self.additional_events.remove(0);
            proof {
                assert(self.additional_events@ =~= old(self).additional_events@.drop_first());
            }
            Some(e)
        } else {
            try_recv_event(&self.rx)
        }
    }

    /// The handle for `id`: the slot's handle for `id` in range, the
    /// shared placeholder for any other id. Never panics, by design.
    pub fn gamepad(&self, id: usize) -> (r: &Gamepad)
        ensures
            *r == self.spec_slot(id),
    {
        if id == 0 {
            &self.gamepad0
        } else if id == 1 {
            &self.gamepad1
        } else if id == 2 {
            &self.gamepad2
        } else if id == 3 {
            &self.gamepad3
        } else {
            &self.not_observed
        }
    }

    /// Like `gamepad`, but mutable: out-of-range ids borrow the same
    /// placeholder handle that `gamepad` serves for them.
    pub fn gamepad_mut(&mut self, id: usize) -> (r: &mut Gamepad)
        ensures
            *r == old(self).spec_slot(id),
            id == 0 ==> *final(self) == (Gilrs { gamepad0: *final(r), ..*old(self) }),
            id == 1 ==> *final(self) == (Gilrs { gamepad1: *final(r), ..*old(self) }),
            id == 2 ==> *final(self) == (Gilrs { gamepad2: *final(r), ..*old(self) }),
            id == 3 ==> *final(self) == (Gilrs { gamepad3: *final(r), ..*old(self) }),
            id >= 4 ==> *final(self) == (Gilrs { not_observed: *final(r), ..*old(self) }),
    {
        if id == 0 {
            &mut self.gamepad0
        } else if id == 1 {
            &mut self.gamepad1
        } else if id == 2 {
            &mut self.gamepad2
        } else if id == 3 {
            &mut self.gamepad3
        } else {
            &mut self.not_observed
        }
    }

    /// An upper bound on the ids of observed slots: ids at or above it are
    /// served by the placeholder.
    pub fn last_gamepad_hint(&self) -> (r: usize)
        ensures
            r == SLOT_COUNT,
    {
        SLOT_COUNT
    }
}

/// Every id outside the valid slot range is served by one and the same
/// placeholder handle — by `gamepad` and `gamepad_mut` alike — and that
/// handle is never observed, so its capability lists are empty.
pub proof fn lemma_out_of_range_is_placeholder(g: Gilrs, id: usize)
    requires
        g.wf(),
        id >= SLOT_COUNT,
    ensures
        g.spec_slot(id) == g.not_observed,
        g.spec_slot(id).status == Status::NotObserved,
        g.spec_slot(id).id == PLACEHOLDER_ID,
{
}

} // verus!
