//! A single-slot, coalescing handoff channel: the decision logic.
//!
//! - [`slot`]: the mailbox cell that holds at most one pending message and is
//!   overwritten, never queued.
//! - [`run_loop`]: the receive loop's policy, debounce included, as a machine
//!   from what a take returned to the next action.
//! - [`latch`]: the self-latching answer of a cooperative interruption check.
use vstd::prelude::*;

pub mod latch;
pub mod run_loop;
pub mod slot;

pub use latch::Latch;
pub use run_loop::{Action, Phase, RunLoop};
pub use slot::{Message, Slot};

verus! {

} // verus!
