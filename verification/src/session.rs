//! A fiber's whole life, with both sides put together.
//!
//! The resumer and the fiber's own stack never run at once: they take turns,
//! and each turn ends in a switch. A [`Session`] follows both through polls
//! and through the final request to unwind, built from nothing but the
//! decisions of [`crate::fiber`] and [`crate::awaiter`]. The laws below say
//! what holds of every such life.

use vstd::prelude::*;
use crate::awaiter::{Ending, Seat, Signal, Step};
use crate::control::{Control, Mark};
use crate::fiber::{cancel_switch, poll_control, poll_outcome, resume_switch, Polled};
use crate::switch::{Arrival, Transfer};

verus! {

/// Where the fiber's side stands while the resumer has control.
pub enum Place {
    /// Set up and never switched into: the entry frame awaits its first word.
    Entry,
    /// Inside a wait, switched out on a nested operation that is not resolved.
    Waiting,
    /// The closure has ended and its result has been handed over.
    Finished,
    /// The fiber was asked to unwind and has acknowledged.
    Unwound,
}

/// Both sides of a fiber between two switches.
pub struct Session {
    /// What the resumer's control word stands for.
    pub control: Mark,
    /// Where the fiber's side stands.
    pub place: Place,
    /// The address at which the fiber's side is parked.
    pub parked: usize,
    /// The closure's awaiter. There is none until the closure runs.
    pub seat: Option<Seat>,
}

/// What one poll meets: what the resumer brings, where the switch primitive
/// parks each side, and how far the closure gets. Waits that find their
/// operation resolved at once are not counted: they make no switch and leave
/// the awaiter as it was.
pub struct Turn {
    /// The address of the wake handle that the poll supplies.
    pub waker: usize,
    /// Where the resumer is parked while the fiber runs.
    pub here: usize,
    /// Where the fiber's side is parked when it switches back.
    pub there: usize,
    /// The address of the closure's result if the closure ends in this turn;
    /// none if it stops at a nested operation that is not resolved.
    pub ending: Option<usize>,
}

impl Turn {
    /// A turn that can occur: the wake handle and the result have addresses,
    /// and the fiber parks where a control word can point.
    pub open spec fn ok(self) -> bool {
        &&& self.waker != 0
        &&& Control::holds(self.there)
        &&& self.ending matches Some(payload) ==> payload != 0
    }
}

impl Session {
    /// A fiber that has been set up at `entry` and never polled.
    pub open spec fn start(entry: usize) -> Session {
        Session {
            control: Mark { address: entry, done: false },
            place: Place::Entry,
            parked: entry,
            seat: None,
        }
    }

    /// Whether the fiber can still be switched into.
    pub open spec fn live(self) -> bool {
        self.place is Entry || self.place is Waiting
    }

    /// What holds between two switches: the control word points at the
    /// parked fiber, it is marked done exactly when the closure's result has
    /// been handed over, and a closure that has begun has an awaiter with a
    /// wake handle.
    pub open spec fn inv(self) -> bool {
        &&& self.control.address == self.parked
        &&& Control::holds(self.parked)
        &&& self.control.done <==> self.place is Finished
        &&& self.place is Entry ==> self.seat is None
        &&& self.place is Waiting || self.place is Finished ==> {
            &&& self.seat matches Some(seat)
            &&& seat.wake_handle != 0
        }
    }

    /// What the fiber's side finds when a poll switches into it.
    pub open spec fn poll_arrival(self, turn: Turn) -> Arrival {
        Arrival { stack: turn.here, word: resume_switch(self.control, turn.waker).word }
    }

    /// The awaiter with which the closure runs during a poll: made by the
    /// entry frame on the first, brought up to date by the wait on the others.
    pub open spec fn poll_seat(self, turn: Turn) -> Seat {
        match self.seat {
            Some(seat) => seat.after(Signal::Resumed(self.poll_arrival(turn))),
            None => match Seat::enter(self.poll_arrival(turn)) {
                Some(seat) => seat,
                None => Seat { resume_point: turn.here, wake_handle: turn.waker },
            },
        }
    }

    /// The switch with which the fiber's side ends a poll.
    pub open spec fn poll_back(self, turn: Turn) -> Transfer {
        match turn.ending {
            Some(payload) => self.poll_seat(turn).finish(Ending::Delivered(payload)),
            None => self.poll_seat(turn).suspend(),
        }
    }

    /// What the resumer finds when the fiber's side switches back.
    pub open spec fn poll_answer(self, turn: Turn) -> Arrival {
        Arrival { stack: turn.there, word: self.poll_back(turn).word }
    }

    /// The session after a poll.
    pub open spec fn poll(self, turn: Turn) -> Session {
        Session {
            control: poll_control(self.poll_answer(turn)),
            place: if turn.ending is Some {
                Place::Finished
            } else {
                Place::Waiting
            },
            parked: turn.there,
            seat: Some(self.poll_seat(turn)),
        }
    }

    /// What the poll reports.
    pub open spec fn polled(self, turn: Turn) -> Polled {
        poll_outcome(self.poll_answer(turn))
    }

    /// The session after the polls of `turns`, one after the other. A fiber
    /// that is no longer live is not polled.
    pub open spec fn run(self, turns: Seq<Turn>) -> Session
        decreases turns.len(),
    {
        if turns.len() == 0 || !self.live() {
            self
        } else {
            self.poll(turns[0]).run(turns.drop_first())
        }
    }

    /// What those polls report, in order.
    pub open spec fn reports(self, turns: Seq<Turn>) -> Seq<Polled>
        decreases turns.len(),
    {
        if turns.len() == 0 || !self.live() {
            Seq::empty()
        } else {
            seq![self.polled(turns[0])] + self.poll(turns[0]).reports(turns.drop_first())
        }
    }

    /// What the fiber's side finds when its owner, parked at `here`, drops
    /// it: nothing if the fiber is done.
    pub open spec fn cancel_arrival(self, here: usize) -> Option<Arrival> {
        match cancel_switch(self.control) {
            Some(out) => Some(Arrival { stack: here, word: out.word }),
            None => None,
        }
    }

    /// The switch with which the fiber's side acknowledges the drop.
    pub open spec fn cancel_back(self, here: usize) -> Option<Transfer> {
        match (self.cancel_arrival(here), self.seat) {
            (Some(arrival), Some(seat)) => Some(
                seat.after(Signal::Resumed(arrival)).finish(Ending::Unwound),
            ),
            (Some(arrival), None) => Some(Seat::acknowledge(arrival)),
            (None, _) => None,
        }
    }

    /// The session after the drop.
    pub open spec fn cancel(self, here: usize) -> Session {
        match (self.cancel_arrival(here), self.seat) {
            (Some(arrival), Some(seat)) => Session {
                place: Place::Unwound,
                seat: Some(seat.after(Signal::Resumed(arrival))),
                ..self
            },
            (Some(arrival), None) => Session { place: Place::Unwound, ..self },
            (None, _) => self,
        }
    }

    /// A fiber that was just set up is live, not done, and its closure has
    /// not begun.
    pub proof fn lemma_start(entry: usize)
        requires
            Control::holds(entry),
        ensures
            Self::start(entry).inv(),
            Self::start(entry).live(),
            !Self::start(entry).control.done,
            Self::start(entry).seat is None,
    {
    }

    /// One poll of a live fiber. The resumer switches into the address at
    /// which the fiber is parked, and the fiber switches back into the address
    /// at which the resumer is parked. A wait that was switched out polls its
    /// nested operation again, and every nested poll of the turn is given the
    /// wake handle of this very poll. The poll reports the closure's result if the closure ended,
    /// and pending if it did not; the control word is marked done in the first
    /// case and in no other. The fiber is left in order for the next poll.
    pub proof fn lemma_poll(self, turn: Turn)
        requires
            self.inv(),
            self.live(),
            turn.ok(),
        ensures
            resume_switch(self.control, turn.waker).target == self.parked,
            self.poll_back(turn).target == turn.here,
            self.poll_seat(turn).wake_handle == turn.waker,
            self.poll_seat(turn).step(Signal::Begin) == Step::Poll(turn.waker),
            self.seat matches Some(seat) ==> seat.step(Signal::Resumed(self.poll_arrival(turn)))
                == Step::Poll(turn.waker),
            self.polled(turn) == match turn.ending {
                Some(payload) => Polled::Ready(payload),
                None => Polled::Pending,
            },
            self.poll(turn).control.done <==> turn.ending is Some,
            self.poll(turn).live() <==> turn.ending is None,
            self.poll(turn).inv(),
    {
    }

    /// A closure that ends without ever stopping at a nested operation is
    /// reported ready by the first poll, with the address of its result, and
    /// the fiber is done.
    pub proof fn lemma_ready_at_first_poll(entry: usize, turn: Turn, payload: usize)
        requires
            Control::holds(entry),
            turn.ok(),
            turn.ending == Some(payload),
        ensures
            Self::start(entry).polled(turn) == Polled::Ready(payload),
            Self::start(entry).poll(turn).control.done,
            Self::start(entry).poll(turn).place is Finished,
    {
    }

    /// As long as the closure stops at a nested operation that is not
    /// resolved, every poll reports pending, however many there are, and
    /// leaves the fiber live, in order and not done.
    pub proof fn lemma_pending_while_unresolved(self, turns: Seq<Turn>)
        requires
            self.inv(),
            self.live(),
            forall|i: int| 0 <= i < turns.len() ==> turns[i].ok() && turns[i].ending is None,
        ensures
            self.reports(turns).len() == turns.len(),
            forall|i: int| 0 <= i < turns.len() ==> self.reports(turns)[i] == Polled::Pending,
            self.run(turns).inv(),
            self.run(turns).live(),
            !self.run(turns).control.done,
        decreases turns.len(),
    {
        if turns.len() > 0 {
            let rest = turns.drop_first();
            self.lemma_poll(turns[0]);
            assert forall|i: int| 0 <= i < rest.len() implies rest[i].ok()
                && rest[i].ending is None by {
                assert(rest[i] == turns[i + 1]);
            }
            self.poll(turns[0]).lemma_pending_while_unresolved(rest);
            assert forall|i: int| 0 <= i < turns.len() implies self.reports(turns)[i]
                == Polled::Pending by {
                if i > 0 {
                    assert(self.reports(turns)[i] == self.poll(turns[0]).reports(rest)[i - 1]);
                }
            }
        }
    }

    /// The first turn in which the closure ends decides the run: the polls
    /// before it report pending, the poll of that turn reports the result, and
    /// there the run stops, with the fiber done.
    pub proof fn lemma_ready_at_first_ending(self, turns: Seq<Turn>, k: int, payload: usize)
        requires
            self.inv(),
            self.live(),
            0 <= k < turns.len(),
            forall|i: int| 0 <= i <= k ==> turns[i].ok(),
            forall|i: int| 0 <= i < k ==> turns[i].ending is None,
            turns[k].ending == Some(payload),
        ensures
            self.reports(turns).len() == k + 1,
            forall|i: int| 0 <= i < k ==> self.reports(turns)[i] == Polled::Pending,
            self.reports(turns)[k] == Polled::Ready(payload),
            self.run(turns).inv(),
            self.run(turns).control.done,
            self.run(turns).place is Finished,
        decreases k,
    {
        let rest = turns.drop_first();
        let next = self.poll(turns[0]);
        self.lemma_poll(turns[0]);
        if k == 0 {
            next.lemma_done_is_final(rest);
            assert(next.reports(rest) =~= Seq::empty());
        } else {
            assert forall|i: int| 0 <= i <= k - 1 implies rest[i].ok() by {
                assert(rest[i] == turns[i + 1]);
            }
            assert forall|i: int| 0 <= i < k - 1 implies rest[i].ending is None by {
                assert(rest[i] == turns[i + 1]);
            }
            assert(rest[k - 1] == turns[k]);
            next.lemma_ready_at_first_ending(rest, k - 1, payload);
            assert forall|i: int| 0 <= i < k implies self.reports(turns)[i]
                == Polled::Pending by {
                if i > 0 {
                    assert(self.reports(turns)[i] == next.reports(rest)[i - 1]);
                }
            }
            assert(self.reports(turns)[k] == next.reports(rest)[k - 1]);
        }
    }

    /// A fiber that is done stays as it is: no poll is made of it, so nothing
    /// is reported and the done flag is never cleared.
    pub proof fn lemma_done_is_final(self, turns: Seq<Turn>)
        requires
            self.inv(),
            self.control.done,
        ensures
            self.run(turns) == self,
            self.reports(turns).len() == 0,
    {
    }

    /// Once a run has left the fiber done, no further polls undo it.
    pub proof fn lemma_done_is_kept(self, turns: Seq<Turn>, more: Seq<Turn>)
        requires
            self.inv(),
            forall|i: int| 0 <= i < turns.len() ==> turns[i].ok(),
            self.run(turns).control.done,
        ensures
            self.run(turns + more) == self.run(turns),
        decreases turns.len(),
    {
        if turns.len() == 0 {
            assert(turns + more =~= more);
            self.lemma_done_is_final(more);
        } else if self.live() {
            let rest = turns.drop_first();
            self.lemma_poll(turns[0]);
            assert forall|i: int| 0 <= i < rest.len() implies rest[i].ok() by {
                assert(rest[i] == turns[i + 1]);
            }
            assert((turns + more).drop_first() =~= rest + more);
            assert((turns + more)[0] == turns[0]);
            self.poll(turns[0]).lemma_done_is_kept(rest, more);
        }
    }

    /// Dropping a fiber that was never polled: the entry frame finds the word
    /// zero, makes no awaiter, so that none of the closure runs, and
    /// acknowledges to the address at which the owner is parked, with the word
    /// zero.
    pub proof fn lemma_cancel_before_first_poll(entry: usize, here: usize)
        requires
            Control::holds(entry),
        ensures
            cancel_switch(Self::start(entry).control) == Some(
                Transfer { target: entry, word: 0 },
            ),
            Self::start(entry).cancel_arrival(here) matches Some(arrival) && Seat::enter(arrival)
                is None,
            Self::start(entry).cancel_back(here) == Some(Transfer { target: here, word: 0 }),
            Self::start(entry).cancel(here).place is Unwound,
            Self::start(entry).cancel(here).seat is None,
    {
    }

    /// Dropping a fiber whose closure is switched out inside a wait: the
    /// owner switches into the address at which the fiber is parked, the wait
    /// finds the word zero and unwinds the closure, and the fiber acknowledges
    /// to the address at which the owner is parked, with the word zero.
    pub proof fn lemma_cancel_while_waiting(self, here: usize)
        requires
            self.inv(),
            self.place is Waiting,
        ensures
            cancel_switch(self.control) == Some(Transfer { target: self.parked, word: 0 }),
            self.cancel_arrival(here) matches Some(arrival) && self.seat matches Some(seat)
                && seat.step(Signal::Resumed(arrival)) == Step::Unwind,
            self.cancel_back(here) == Some(Transfer { target: here, word: 0 }),
            self.cancel(here).place is Unwound,
    {
    }

    /// Dropping a fiber that is done makes no switch and changes nothing.
    pub proof fn lemma_cancel_when_done(self, here: usize)
        requires
            self.inv(),
            self.control.done,
        ensures
            self.cancel_back(here) is None,
            self.cancel(here) == self,
    {
    }
}

} // verus!
