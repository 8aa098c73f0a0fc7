//! The switch protocol of a stackful fiber that is polled like any other
//! asynchronous task.
//!
//! A fiber runs a closure on a call stack of its own. Its owner, the resumer,
//! polls it; every poll is one context switch into the fiber's stack and one
//! switch back. Each switch carries a single machine word in each direction.
//! This crate holds every decision of that protocol as a function from state
//! and incoming word to next state and outgoing word, and proves what the two
//! sides can rely on. The switches themselves are performed by the caller.

pub mod awaiter;
pub mod control;
pub mod fiber;
pub mod session;
pub mod switch;

pub use awaiter::{Awaiter, Ending, Entry, Seat, Signal, Step};
pub use control::{Control, Mark};
pub use fiber::{Fiber, Polled, Teardown, Unwinding};
pub use session::{Place, Session, Turn};
pub use switch::{Arrival, Transfer};
