use fibrous::{
    Arrival, Awaiter, Control, Ending, Entry, Fiber, Polled, Signal, Step, Teardown, Transfer,
};
use std::task::Poll;

/// A nested operation that a closure waits on.
#[derive(Clone, Copy)]
enum Nested {
    /// Gives this value, after this many polls that find it unresolved.
    After(usize, usize),
    /// Never resolves.
    Never,
}

/// How a closure ends once its waits are over.
#[derive(Clone, Copy)]
enum End {
    Return(usize),
    ReturnWaited,
    Panic(&'static str),
}

/// A closure, told as the list of what it does.
struct Closure {
    waits: Vec<Nested>,
    end: End,
    /// Locals of the closure that count their own destruction.
    guards: usize,
}

fn gives(value: usize) -> Closure {
    Closure { waits: Vec::new(), end: End::Return(value), guards: 0 }
}

fn panics(message: &'static str) -> Closure {
    Closure { waits: Vec::new(), end: End::Panic(message), guards: 0 }
}

fn never() -> Closure {
    Closure { waits: vec![Nested::Never], end: End::Return(0), guards: 0 }
}

fn waits_on(nested: Nested) -> Closure {
    Closure { waits: vec![nested], end: End::ReturnWaited, guards: 0 }
}

/// The fiber's own stack, as far as the protocol knows it.
enum Side {
    Dormant(Closure),
    Suspended { awaiter: Awaiter, closure: Closure, at: usize, seen: usize, waited: usize },
    Finished,
    Unwound,
}

const STACK_BASE: usize = 0x0010_0000;
const RESUMER_BASE: usize = 0x0700_0000;
const RESULT_SLOT: usize = 0x40;

/// A fiber with both of its sides, and a switch primitive that moves control
/// between them by an ordinary call.
struct Bench {
    fiber: Option<Fiber<Vec<u8>>>,
    side: Side,
    top: usize,
    fiber_parked: usize,
    parks: usize,
    waker: usize,
    result: Option<(usize, Result<usize, &'static str>)>,
    switches: usize,
    nested_polls: usize,
    started: bool,
    guards_dropped: usize,
    log: Vec<&'static str>,
}

impl Bench {
    fn new(closure: Closure, stack: Vec<u8>) -> Bench {
        let top = STACK_BASE + stack.len();
        let entry = top - 0x80;
        assert!(Control::fits(entry));
        Bench {
            fiber: Some(Fiber::new(entry, stack)),
            side: Side::Dormant(closure),
            top,
            fiber_parked: entry,
            parks: 0,
            waker: 0x0a00_0000,
            result: None,
            switches: 0,
            nested_polls: 0,
            started: false,
            guards_dropped: 0,
            log: Vec::new(),
        }
    }

    /// The resumer's half of the switch primitive: control goes to the fiber's
    /// side, and comes back when that side switches in turn.
    fn switch(&mut self, out: Transfer) -> Arrival {
        assert_eq!(out.target, self.fiber_parked, "nothing is parked at the target");
        self.switches += 1;
        self.parks += 1;
        let here = RESUMER_BASE - 16 * self.parks;
        let back = self.fiber_side(Arrival { stack: here, word: out.word });
        assert_eq!(back.target, here, "the resumer is not parked at the target");
        self.switches += 1;
        self.fiber_parked = self.top - 0x100 - 16 * self.parks;
        Arrival { stack: self.fiber_parked, word: back.word }
    }

    fn fiber_side(&mut self, arrival: Arrival) -> Transfer {
        match std::mem::replace(&mut self.side, Side::Unwound) {
            Side::Dormant(closure) => match Awaiter::enter(arrival) {
                Entry::Unwind(back) => {
                    drop(closure);
                    self.log.push("closure dropped unrun");
                    back
                }
                Entry::Run(awaiter) => {
                    self.started = true;
                    self.run(awaiter, closure, 0, 0, 0, Signal::Begin)
                }
            },
            Side::Suspended { awaiter, closure, at, seen, waited } => {
                self.run(awaiter, closure, at, seen, waited, Signal::Resumed(arrival))
            }
            Side::Finished | Side::Unwound => panic!("switched into a stack that has ended"),
        }
    }

    fn run(
        &mut self,
        mut awaiter: Awaiter,
        closure: Closure,
        mut at: usize,
        mut seen: usize,
        mut waited: usize,
        mut signal: Signal,
    ) -> Transfer {
        loop {
            if signal == Signal::Begin && at == closure.waits.len() {
                break;
            }
            match awaiter.wait(signal) {
                Step::Poll(handle) => {
                    assert_eq!(handle, self.waker, "a nested poll saw a stale wake handle");
                    assert_eq!(handle, awaiter.wake_handle());
                    self.nested_polls += 1;
                    signal = match closure.waits[at] {
                        Nested::After(unresolved, value) if seen == unresolved => {
                            waited = value;
                            Signal::Resolved
                        }
                        _ => {
                            seen += 1;
                            Signal::Unresolved
                        }
                    };
                }
                Step::Return => {
                    at += 1;
                    seen = 0;
                    signal = Signal::Begin;
                }
                Step::Suspend(back) => {
                    assert_eq!(back.word, 0);
                    self.side = Side::Suspended { awaiter, closure, at, seen, waited };
                    return back;
                }
                Step::Unwind => {
                    self.guards_dropped += closure.guards;
                    self.log.push("closure unwound");
                    self.side = Side::Unwound;
                    return awaiter.finish(Ending::Unwound);
                }
            }
        }
        let result = match closure.end {
            End::Return(value) => Ok(value),
            End::ReturnWaited => Ok(waited),
            End::Panic(message) => Err(message),
        };
        self.guards_dropped += closure.guards;
        let address = self.top - RESULT_SLOT;
        self.result = Some((address, result));
        self.side = Side::Finished;
        awaiter.finish(Ending::Delivered(address))
    }

    fn poll(&mut self) -> Poll<Result<usize, &'static str>> {
        let mut fiber = self.fiber.take().expect("the fiber was dropped");
        assert!(!fiber.is_done(), "polled after completion");
        self.waker += 8;
        let out = fiber.resume(self.waker);
        let arrival = self.switch(out);
        assert!(Control::fits(arrival.stack));
        let polled = fiber.poll(arrival);
        self.fiber = Some(fiber);
        match polled {
            Polled::Pending => Poll::Pending,
            Polled::Ready(address) => {
                let (at, result) = self.result.take().expect("no result was left");
                assert_eq!(address, at);
                Poll::Ready(result)
            }
        }
    }

    fn is_done(&self) -> bool {
        self.fiber.as_ref().expect("the fiber was dropped").is_done()
    }

    fn drop_fiber(&mut self) {
        let fiber = self.fiber.take().expect("the fiber was dropped");
        let stack = match fiber.cancel() {
            Teardown::Release(stack) => stack,
            Teardown::Unwind(out, unwinding) => {
                assert_eq!(out.word, 0);
                let ack = self.switch(out);
                assert_eq!(ack.word, 0);
                unwinding.acknowledged(ack)
            }
        };
        assert_eq!(STACK_BASE + stack.len(), self.top);
        drop(stack);
        self.log.push("stack released");
    }
}

fn requires_send<S: Send>(_wat: &S) {}

fn requires_sync<S: Sync>(_wat: &S) {}

#[test]
fn poll_ret() {
    let s = vec![0u8; 8192];
    let mut s = Bench::new(gives(42usize), s);
    match s.poll() {
        Poll::Ready(Ok(42)) => (),
        _ => unreachable!(),
    }
    assert!(s.is_done());
    assert_eq!(s.switches, 2);
    assert_eq!(s.nested_polls, 0);
}

#[test]
fn poll_panic() {
    let s = vec![0u8; 8192];
    let mut s = Bench::new(panics("no"), s);
    match s.poll() {
        Poll::Ready(Err(_)) => (),
        _ => unreachable!(),
    }
    assert!(s.is_done());
    assert_eq!(s.switches, 2);
}

#[test]
fn poll_never() {
    let s = vec![0u8; 8192];
    let mut s = Bench::new(never(), s);
    for _ in 0..5 {
        match s.poll() {
            Poll::Pending => (),
            _ => unreachable!(),
        }
    }
    assert!(!s.is_done());
    assert_eq!(s.switches, 10);
    assert_eq!(s.nested_polls, 5);
}

#[test]
fn poll_always() {
    let s = vec![0u8; 8192];
    let mut s = Bench::new(waits_on(Nested::After(0, 42usize)), s);
    match s.poll() {
        Poll::Ready(Ok(42usize)) => (),
        _ => unreachable!(),
    }
    assert!(s.is_done());
    assert_eq!(s.switches, 2);
    assert_eq!(s.nested_polls, 1);
}

#[test]
fn drop_unused() {
    let s = vec![0u8; 8192];
    let mut s = Bench::new(gives(0), s);
    s.drop_fiber();
    assert!(!s.started);
    assert_eq!(s.nested_polls, 0);
    assert_eq!(s.switches, 2);
    assert_eq!(s.log, vec!["closure dropped unrun", "stack released"]);
}

#[test]
fn drop_suspended() {
    let s = vec![0u8; 8192];
    let mut closure = never();
    closure.guards = 3;
    let mut s = Bench::new(closure, s);
    assert!(s.poll().is_pending());
    assert!(s.poll().is_pending());
    assert_eq!(s.guards_dropped, 0);
    s.drop_fiber();
    assert_eq!(s.guards_dropped, 3);
    assert_eq!(s.switches, 6);
    assert_eq!(s.log, vec!["closure unwound", "stack released"]);
}

#[test]
fn drop_cycles_leak_nothing() {
    let mut made = 0;
    let mut dropped = 0;
    for round in 0..20 {
        let mut closure = waits_on(Nested::After(round, 7));
        closure.guards = 2;
        let mut s = Bench::new(closure, vec![0u8; 8192]);
        for _ in 0..round / 2 {
            assert!(s.poll().is_pending());
        }
        // Locals exist only once the closure has begun.
        assert_eq!(s.started, round >= 2);
        if s.started {
            made += 2;
        }
        s.drop_fiber();
        dropped += s.guards_dropped;
    }
    assert_eq!(made, 36);
    assert_eq!(dropped, made);
}

#[test]
fn drop_done_makes_no_switch() {
    let mut closure = gives(9);
    closure.guards = 1;
    let mut s = Bench::new(closure, vec![0u8; 8192]);
    assert_eq!(s.poll(), Poll::Ready(Ok(9)));
    assert_eq!(s.guards_dropped, 1);
    s.drop_fiber();
    assert_eq!(s.switches, 2);
    assert_eq!(s.guards_dropped, 1);
    assert_eq!(s.log, vec!["stack released"]);
}

#[test]
fn ready_after_three_pending() {
    let mut s = Bench::new(waits_on(Nested::After(3, 11)), vec![0u8; 8192]);
    assert_eq!(s.poll(), Poll::Pending);
    assert_eq!(s.poll(), Poll::Pending);
    assert_eq!(s.poll(), Poll::Pending);
    assert!(!s.is_done());
    assert_eq!(s.poll(), Poll::Ready(Ok(11)));
    assert!(s.is_done());
    assert_eq!(s.switches, 8);
    assert_eq!(s.nested_polls, 4);
}

#[test]
fn several_waits_in_one_closure() {
    let closure = Closure {
        waits: vec![Nested::After(0, 1), Nested::After(2, 2), Nested::After(0, 3), Nested::After(1, 4)],
        end: End::ReturnWaited,
        guards: 0,
    };
    let mut s = Bench::new(closure, vec![0u8; 8192]);
    assert_eq!(s.poll(), Poll::Pending);
    assert_eq!(s.nested_polls, 2);
    assert_eq!(s.poll(), Poll::Pending);
    assert_eq!(s.nested_polls, 3);
    assert_eq!(s.poll(), Poll::Pending);
    assert_eq!(s.nested_polls, 6);
    assert_eq!(s.poll(), Poll::Ready(Ok(4)));
    assert_eq!(s.nested_polls, 7);
    assert_eq!(s.switches, 8);
}

#[test]
fn panic_after_a_wait_is_a_result() {
    let closure = Closure { waits: vec![Nested::After(1, 5)], end: End::Panic("late"), guards: 1 };
    let mut s = Bench::new(closure, vec![0u8; 8192]);
    assert_eq!(s.poll(), Poll::Pending);
    assert_eq!(s.poll(), Poll::Ready(Err("late")));
    assert!(s.is_done());
    assert_eq!(s.guards_dropped, 1);
}

#[test]
fn small_stack_works_the_same() {
    let mut s = Bench::new(waits_on(Nested::After(1, 42)), vec![0u8; 512]);
    assert_eq!(s.poll(), Poll::Pending);
    assert_eq!(s.poll(), Poll::Ready(Ok(42)));
}

#[test]
fn fiber_is_send_and_sync() {
    let s = Fiber::new(0x9000, vec![0u8; 8192]);
    requires_send(&s);
    requires_sync(&s);
    let mut s = Bench::new(waits_on(Nested::After(1, 42usize)), vec![0u8; 8192]);
    assert_eq!(s.poll(), Poll::Pending);
    requires_send(&s);
    let mut moved = s;
    assert_eq!(moved.poll(), Poll::Ready(Ok(42)));
}
