//! The clock capability, the elapsed-time extension, and the real clock.

use crate::instant::Instant;
use crate::source::{ClockIds, ClockSource};
use crate::sealed::Sealed;
use crate::time::{duration_nanos, platform_now};
use std::sync::Arc;
use std::time::Duration;
use vstd::prelude::*;

verus! {

/// A source of monotonic time.
pub trait Clock {
    /// The source that every reading of this clock carries.
    spec fn source(&self) -> ClockSource;

    /// The current time on this clock.
    fn now(&self) -> (t: Instant)
        ensures
            t@.source == self.source(),
    ;
}

/// Elapsed time, for every clock.
pub trait ClockExt: Clock + Sealed {
    /// The time from `instant` to now: the span from `instant` to a reading
    /// that `now` returns, and zero where that reading precedes `instant`.
    /// The instant must have been read from this clock.
    fn elapsed_since(&self, instant: Instant) -> (d: Duration)
        requires
            self.source() == instant@.source,
        ensures
            exists|now: Instant| #[trigger]
                call_ensures(Self::now, (self,), now) && duration_nanos(d)
                    == now@.saturating_span_since(instant@),
    ;
}

impl<C: Clock> ClockExt for C {
    fn elapsed_since(&self, instant: Instant) -> (d: Duration) {
        let now = self.now();
        now.saturating_duration_since(instant)
    }
}

impl<T: Clock> Clock for Arc<T> {
    open spec fn source(&self) -> ClockSource {
        (**self).source()
    }

    /// A reading of the handle is a reading of the clock it holds.
    fn now(&self) -> (t: Instant)
        ensures
            call_ensures(T::now, (&**self,), t),
    {
        (**self).now()
    }
}

/// A shared handle is the same clock as the one it holds: it carries the same
/// source, and whatever it reads the held clock could have read, so either
/// can stand wherever a clock is asked for.
pub proof fn lemma_shared_handle_is_same_clock<T: Clock>(handle: Arc<T>, t: Instant)
    requires
        call_ensures(<Arc<T> as Clock>::now, (&handle,), t),
    ensures
        handle.source() == (*handle).source(),
        call_ensures(T::now, (&*handle,), t),
        t@.source == (*handle).source(),
{
}

/// An instant read from one clock is never accepted by the elapsed-time
/// extension of a clock with another source.
pub proof fn lemma_foreign_instant_rejected<A: Clock, B: Clock>(a: &A, b: &B, t: Instant)
    requires
        a.source() != b.source(),
        call_ensures(A::now, (a,), t),
    ensures
        !(b.source() == t@.source),
{
}

/// The platform's monotonic timer.
pub struct StdClock;

impl StdClock {
    /// A reading of the platform's timer tagged as the epoch of a new mock
    /// clock, whose identity is the next that `ids` hands out.
    pub fn new_mock_epoch(ids: &mut ClockIds) -> (t: Instant)
        ensures
            t@.source == ClockSource::Mock(old(ids)@),
            final(ids)@ == ClockIds::id_after(old(ids)@, 1),
    {
        let clock_id: u64 = ids.allocate();
        Instant::from_platform(platform_now(), ClockSource::Mock(clock_id))
    }
}

impl Clock for StdClock {
    open spec fn source(&self) -> ClockSource {
        ClockSource::Std
    }

    fn now(&self) -> (t: Instant) {
        Instant::from_platform(platform_now(), ClockSource::Std)
    }
}

} // verus!
