//! The fiber's side of the protocol: what the code on the fiber's own stack
//! does with the words it is sent.
//!
//! The first word decides whether the closure runs at all. While it runs, the
//! closure waits on nested operations through its [`Awaiter`]; [`Awaiter::wait`]
//! is that loop, one decision at a time. When the closure is over,
//! [`Awaiter::finish`] names the last switch.

use vstd::prelude::*;
use crate::switch::{Arrival, Transfer};

verus! {

/// What an awaiter holds.
pub struct Seat {
    /// Where the resumer is parked: the address to switch back into.
    pub resume_point: usize,
    /// The address of the wake handle that the poll in progress supplied.
    pub wake_handle: usize,
}

/// What happened to a wait since its last step.
#[derive(Clone, Copy, PartialEq, Eq, Debug, Structural)]
pub enum Signal {
    /// The closure has just called for the wait.
    Begin,
    /// The nested operation was polled and is not resolved.
    Unresolved,
    /// The nested operation was polled and gave its value.
    Resolved,
    /// The fiber was switched out and control has come back.
    Resumed(Arrival),
}

/// What a wait does next.
#[derive(Clone, Copy, PartialEq, Eq, Debug, Structural)]
pub enum Step {
    /// Poll the nested operation, with a context made from the wake handle at
    /// this address.
    Poll(usize),
    /// Make this switch, then report what comes back as [`Signal::Resumed`].
    Suspend(Transfer),
    /// Hand the value to the closure: the wait is over.
    Return,
    /// Raise the failure that unwinds the closure: the fiber is being dropped.
    Unwind,
}

/// How a closure's run came to its end.
#[derive(Clone, Copy, PartialEq, Eq, Debug, Structural)]
pub enum Ending {
    /// It returned or failed, and its result lies at this address.
    Delivered(usize),
    /// It was unwound on request. There is no result.
    Unwound,
}

impl Seat {
    /// The awaiter that the first word of a fiber makes: none for zero, which
    /// asks to unwind before anything has run.
    pub open spec fn enter(arrival: Arrival) -> Option<Seat> {
        if arrival.word == 0 {
            None
        } else {
            Some(Seat { resume_point: arrival.stack, wake_handle: arrival.word })
        }
    }

    /// The acknowledgment of a request to unwind: a switch back to the sender,
    /// with the word zero.
    pub open spec fn acknowledge(arrival: Arrival) -> Transfer {
        Transfer { target: arrival.stack, word: 0 }
    }

    /// The awaiter after one step of a wait.
    pub open spec fn after(self, signal: Signal) -> Seat {
        match signal {
            Signal::Resumed(arrival) => Seat {
                resume_point: arrival.stack,
                wake_handle: if arrival.word == 0 {
                    self.wake_handle
                } else {
                    arrival.word
                },
            },
            _ => self,
        }
    }

    /// The switch that parks the fiber while a nested operation is not
    /// resolved: back to the resumer, with the word zero.
    pub open spec fn suspend(self) -> Transfer {
        Transfer { target: self.resume_point, word: 0 }
    }

    /// What a wait does on a signal. The nested operation is polled before
    /// the fiber is ever switched out, and again after each time it comes
    /// back, with the wake handle that came with it. A zero word coming back is
    /// the request to unwind.
    pub open spec fn step(self, signal: Signal) -> Step {
        match signal {
            Signal::Begin => Step::Poll(self.wake_handle),
            Signal::Unresolved => Step::Suspend(self.suspend()),
            Signal::Resolved => Step::Return,
            Signal::Resumed(arrival) => if arrival.word == 0 {
                Step::Unwind
            } else {
                Step::Poll(arrival.word)
            },
        }
    }

    /// A wait whose nested operation is resolved when it is first polled is
    /// over in two steps: the poll, with the wake handle that the awaiter
    /// holds, and the return. Neither is a switch, and the awaiter is left as
    /// it was. A wait switches out only on an operation that is not resolved.
    pub proof fn lemma_resolved_wait_makes_no_switch(self)
        ensures
            self.step(Signal::Begin) == Step::Poll(self.wake_handle),
            self.after(Signal::Begin).step(Signal::Resolved) == Step::Return,
            self.after(Signal::Begin).after(Signal::Resolved) == self,
            forall|signal: Signal| self.step(signal) is Suspend <==> signal is Unresolved,
    {
    }

    /// The last switch of a fiber: back to the resumer, with the address of the
    /// result, or with zero after an unwind.
    pub open spec fn finish(self, ending: Ending) -> Transfer {
        Transfer {
            target: self.resume_point,
            word: match ending {
                Ending::Delivered(payload) => payload,
                Ending::Unwound => 0,
            },
        }
    }
}

/// The handle through which a closure waits on nested operations. It lives on
/// the fiber's stack, and it always holds a wake handle.
#[derive(Clone, Copy, Debug)]
pub struct Awaiter {
    resume_point: usize,
    wake_handle: usize,
}

/// What the entry frame of a fiber does with its first word.
#[derive(Clone, Copy, Debug)]
pub enum Entry {
    /// Drop the closure without running it, make this switch, and never come
    /// back.
    Unwind(Transfer),
    /// Run the closure with this awaiter.
    Run(Awaiter),
}

impl View for Awaiter {
    type V = Seat;

    closed spec fn view(&self) -> Seat {
        Seat { resume_point: self.resume_point, wake_handle: self.wake_handle }
    }
}

impl Awaiter {
    #[verifier::type_invariant]
    closed spec fn holds_a_handle(self) -> bool {
        self.wake_handle != 0
    }

    /// Decides what the first switch into a fiber starts. `arrival` holds the
    /// resumer's parked address and the word it sent.
    pub fn enter(arrival: Arrival) -> (entry: Entry)
        ensures
            match entry {
                Entry::Unwind(back) => {
                    &&& Seat::enter(arrival) is None
                    &&& back == Seat::acknowledge(arrival)
                },
                Entry::Run(awaiter) => Seat::enter(arrival) == Some(awaiter@),
            },
    {
        if arrival.word == 0 {
            Entry::Unwind(Transfer { target: arrival.stack, word: 0 })
        } else {
            Entry::Run(Awaiter { resume_point: arrival.stack, wake_handle: arrival.word })
        }
    }

    /// The address of the wake handle of the poll in progress. It is never
    /// zero.
    pub fn wake_handle(&self) -> (handle: usize)
        ensures
            handle == self@.wake_handle,
            handle != 0,
    {
        proof {
            use_type_invariant(self);
        }
        self.wake_handle
    }

    /// One decision of a wait on a nested operation.
    pub fn wait(&mut self, signal: Signal) -> (step: Step)
        ensures
            final(self)@ == old(self)@.after(signal),
            step == old(self)@.step(signal),
            step matches Step::Poll(handle) ==> handle == final(self)@.wake_handle && handle != 0,
    {
        proof {
            use_type_invariant(&*self);
        }
        match signal {
            Signal::Begin => Step::Poll(self.wake_handle),
            Signal::Unresolved => Step::Suspend(Transfer { target: self.resume_point, word: 0 }),
            Signal::Resolved => Step::Return,
            Signal::Resumed(arrival) => {
                self.resume_point = arrival.stack;
                if arrival.word == 0 {
                    Step::Unwind
                } else {
                    self.wake_handle = arrival.word;
                    Step::Poll(arrival.word)
                }
            },
        }
    }

    /// The switch that ends the fiber's run. Control never comes back from it.
    pub fn finish(self, ending: Ending) -> (back: Transfer)
        requires
            ending matches Ending::Delivered(payload) ==> payload != 0,
        ensures
            back == self@.finish(ending),
    {
        let word = match ending {
            Ending::Delivered(payload) => payload,
            Ending::Unwound => 0,
        };
        Transfer { target: self.resume_point, word }
    }
}

} // verus!
