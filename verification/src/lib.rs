//! Monotonic time for code that measures elapsed durations, with a mock clock
//! for testing such code deterministically.
//!
//! Every [`Instant`] is tagged with the [`ClockSource`] it was read from, and
//! the operations that measure the time between two instants require, as a
//! precondition, that both carry the same source.

pub mod clock;
pub mod instant;
pub mod mock;
mod sealed;
pub mod source;
mod sync;
pub mod time;

pub use clock::{Clock, ClockExt, StdClock};
pub use instant::{Instant, InstantView};
pub use mock::MockClock;
pub use source::{ClockIds, ClockSource};
