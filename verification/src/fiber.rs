//! The resumer's side of a fiber: the control word, the stack it keeps alive,
//! and what a poll and a drop do with them.
//!
//! A poll is one switch into the fiber's stack and one switch back.
//! [`Fiber::resume`] says which switch to make, and [`Fiber::poll`] takes what
//! came back. Tearing a fiber down goes through [`Fiber::cancel`], which hands
//! the stack out only once the fiber's side has acknowledged.

use vstd::prelude::*;
use crate::control::{Control, Mark};
use crate::switch::{Arrival, Transfer};

verus! {

/// What a poll reports.
#[derive(Clone, Copy, PartialEq, Eq, Debug, Structural)]
pub enum Polled {
    /// The closure is waiting on a nested operation.
    Pending,
    /// The closure has ended. The word is the address of its result, which now
    /// belongs to the resumer.
    Ready(usize),
}

/// The switch that polls a fiber: into the address its control word holds,
/// with the wake handle as the word.
pub open spec fn resume_switch(control: Mark, waker: usize) -> Transfer {
    Transfer { target: control.address, word: waker }
}

/// What a poll reports for the word that came back: zero means that the
/// closure is still waiting, anything else is the address of its result.
pub open spec fn poll_outcome(arrival: Arrival) -> Polled {
    if arrival.word == 0 {
        Polled::Pending
    } else {
        Polled::Ready(arrival.word)
    }
}

/// What the control word stands for after a poll: the address at which the
/// fiber's side parked itself, and done exactly if a result came back.
pub open spec fn poll_control(arrival: Arrival) -> Mark {
    Mark { address: arrival.stack, done: arrival.word != 0 }
}

/// The switch that asks a fiber to unwind: none if it is done, else into the
/// address its control word holds, with the word zero.
pub open spec fn cancel_switch(control: Mark) -> Option<Transfer> {
    if control.done {
        None
    } else {
        Some(Transfer { target: control.address, word: 0 })
    }
}

/// The resumer's handle on a fiber. It owns the stack, which it never reads.
pub struct Fiber<S> {
    control: Control,
    stack: S,
}

/// What tearing a fiber down asks of its owner.
pub enum Teardown<S> {
    /// The fiber was done: here is its stack, free to be released.
    Release(S),
    /// The fiber was not done: make this switch, then hand what comes back to
    /// [`Unwinding::acknowledged`].
    Unwind(Transfer, Unwinding<S>),
}

/// The stack of a fiber that has been asked to unwind and has not yet
/// acknowledged.
pub struct Unwinding<S> {
    stack: S,
}

impl<S> Unwinding<S> {
    /// The stack that is held back.
    pub closed spec fn stack(&self) -> S {
        self.stack
    }

    /// Takes the fiber's acknowledgment and hands the stack out. The word of
    /// the acknowledgment is not looked at.
    pub fn acknowledged(self, _ack: Arrival) -> (stack: S)
        ensures
            stack == self.stack(),
    {
        self.stack
    }
}

impl<S> Fiber<S> {
    /// What the control word stands for.
    pub closed spec fn control(&self) -> Mark {
        self.control@
    }

    /// The stack that the fiber owns.
    pub closed spec fn stack(&self) -> S {
        self.stack
    }

    /// A fiber whose closure has been set up on `stack` and not yet run.
    /// `entry` is the address that the first switch goes into.
    pub fn new(entry: usize, stack: S) -> (fiber: Self)
        requires
            Control::holds(entry),
        ensures
            fiber.control() == (Mark { address: entry, done: false }),
            fiber.stack() == stack,
    {
        Fiber { control: Control::new(entry), stack }
    }

    /// Whether the closure has ended and its result has been taken.
    pub fn is_done(&self) -> (done: bool)
        ensures
            done == self.control().done,
    {
        self.control.is_done()
    }

    /// The address that the next switch goes into.
    pub fn address(&self) -> (address: usize)
        ensures
            address == self.control().address,
            Control::holds(address),
    {
        proof {
            self.control.lemma_address_holds();
        }
        self.control.address_of()
    }

    /// The switch that a poll makes: into the fiber's stack, with the address
    /// of the wake handle as the word.
    pub fn resume(&self, waker: usize) -> (out: Transfer)
        requires
            !self.control().done,
            waker != 0,
        ensures
            out == resume_switch(self.control(), waker),
    {
        Transfer { target: self.control.address_of(), word: waker }
    }

    /// Takes what the switch of [`Fiber::resume`] brought back. The fiber is
    /// parked at the returned address from now on; it is done exactly if the
    /// word is not zero.
    pub fn poll(&mut self, arrival: Arrival) -> (polled: Polled)
        requires
            !old(self).control().done,
            Control::holds(arrival.stack),
        ensures
            final(self).control() == poll_control(arrival),
            final(self).stack() == old(self).stack(),
            polled == poll_outcome(arrival),
    {
        let parked = Control::new(arrival.stack);
        if arrival.word == 0 {
            self.control = parked;
            Polled::Pending
        } else {
            self.control = parked.mark_done();
            Polled::Ready(arrival.word)
        }
    }

    /// Ends the fiber's life. A fiber that is done gives up its stack at
    /// once. One that is not must unwind first: the stack is held back until
    /// the switch that asks for it has returned.
    pub fn cancel(self) -> (teardown: Teardown<S>)
        ensures
            match teardown {
                Teardown::Release(stack) => {
                    &&& cancel_switch(self.control()) is None
                    &&& stack == self.stack()
                },
                Teardown::Unwind(out, unwinding) => {
                    &&& cancel_switch(self.control()) == Some(out)
                    &&& unwinding.stack() == self.stack()
                },
            },
    {
        if self.control.is_done() {
            Teardown::Release(self.stack)
        } else {
            let out = Transfer { target: self.control.address_of(), word: 0 };
            Teardown::Unwind(out, Unwinding { stack: self.stack })
        }
    }
}

} // verus!
