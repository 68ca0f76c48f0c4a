//! A periodic-task runner, reduced to the decisions it makes.
//!
//! The background loop of a repeater checks a cancellation flag, sleeps for
//! one interval, invokes its callback with the current tick and counts on.
//! Its owner sets the flag once and waits for the loop to end. The modules
//! here hold those decisions as verified state machines; the threads, the
//! atomic flag and the sleeping are driven from outside.
pub mod arith;
pub mod repeater;
pub mod ticker;

pub use arith::sum;
pub use repeater::{join_outcome, Repeater, RepeaterError};
pub use ticker::{Step, TickLoop};
