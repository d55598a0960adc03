//! A clock that moves only when told to.

use crate::clock::{Clock, StdClock};
use crate::instant::{Instant, InstantView};
use crate::source::{ClockIds, ClockSource};
use crate::sync::{acquire, load, store};
use crate::time::{duration_nanos, duration_representable, representable};
use std::sync::{Arc, Mutex};
use std::time::Duration;
use vstd::prelude::*;

verus! {

/// A clock for tests: it reads its epoch plus whatever it has been advanced
/// by, and nothing else moves it.
///
/// The offset lies behind a lock, so one clock can be shared between threads
/// and advanced through a shared reference.
#[derive(Debug)]
pub struct MockClock {
    local_epoch: Instant,
    elapsed: Mutex<Duration>,
}

impl MockClock {
    /// The instant this clock read when it was made, and reads until it is
    /// first advanced.
    pub closed spec fn local_epoch(&self) -> InstantView {
        self.local_epoch@
    }

    /// What a clock with the given epoch reads once `elapsed` nanoseconds have
    /// been added to it.
    pub open spec fn reading_at(epoch: InstantView, elapsed: nat) -> InstantView {
        if representable(epoch.ticks + elapsed) {
            epoch.after(elapsed)
        } else {
            epoch
        }
    }

    /// The offset of a clock with the given epoch after it is asked to advance
    /// by `step` from `elapsed`: the sum, or `None` where the clock stays as
    /// it is because no duration is that long or the platform has no instant
    /// that far from the epoch.
    pub open spec fn offset_after(epoch: InstantView, elapsed: nat, step: nat) -> Option<nat> {
        if duration_representable(elapsed + step) && representable(epoch.ticks + elapsed + step) {
            Some(elapsed + step)
        } else {
            None
        }
    }

    /// A clock's offset never shrinks: where an advance is taken, the new
    /// offset is the old one plus the step, and the clock reads no earlier
    /// than before.
    pub proof fn lemma_advance_is_monotonic(epoch: InstantView, elapsed: nat, step: nat)
        requires
            Self::offset_after(epoch, elapsed, step) is Some,
        ensures
            Self::offset_after(epoch, elapsed, step) == Some(elapsed + step),
            Self::reading_at(epoch, elapsed + step).ticks >= Self::reading_at(
                epoch,
                elapsed,
            ).ticks,
            Self::reading_at(epoch, elapsed + step).source == epoch.source,
    {
    }

    /// Advances add up exactly. A clock that has not been advanced reads its
    /// epoch, so no time has elapsed since an instant taken then; and after
    /// it is advanced by `first` and then by `second`, both taken, the time
    /// elapsed since that instant is `first + second` to the nanosecond.
    pub proof fn lemma_advances_add_up(epoch: InstantView, first: nat, second: nat)
        requires
            Self::offset_after(epoch, 0, first) is Some,
            Self::offset_after(epoch, first, second) is Some,
        ensures
            Self::reading_at(epoch, 0) == epoch,
            Self::reading_at(epoch, 0).saturating_span_since(epoch) == 0,
            Self::offset_after(epoch, 0, first) == Some(first),
            Self::offset_after(epoch, first, second) == Some(first + second),
            Self::reading_at(epoch, first + second).span_since(epoch) == first + second,
            Self::reading_at(epoch, first + second).saturating_span_since(epoch) == first
                + second,
            Self::reading_at(epoch, first + second).checked_span_since(epoch) == Some(
                first + second,
            ),
    {
    }

    /// A mock clock with the next identity of `ids`, not yet advanced.
    pub fn new(ids: &mut ClockIds) -> (clock: MockClock)
        ensures
            clock.source() == ClockSource::Mock(old(ids)@),
            final(ids)@ == ClockIds::id_after(old(ids)@, 1),
    {
        let local_epoch = StdClock::new_mock_epoch(ids);
        MockClock { local_epoch, elapsed: Mutex::new(Duration::new(0, 0)) }
    }

    /// A mock clock as [`MockClock::new`] makes it, behind a handle that
    /// threads can share.
    pub fn new_shared(ids: &mut ClockIds) -> (clock: Arc<MockClock>)
        ensures
            clock.source() == ClockSource::Mock(old(ids)@),
            final(ids)@ == ClockIds::id_after(old(ids)@, 1),
    {
        Arc::new(MockClock::new(ids))
    }

    /// What this clock reads when its offset is `elapsed`.
    pub fn instant_at(&self, elapsed: Duration) -> (t: Instant)
        ensures
            t@ == Self::reading_at(self.local_epoch(), duration_nanos(elapsed)),
    {
        match self.local_epoch.checked_add(elapsed) {
            Some(t) => t,
            None => self.local_epoch,
        }
    }

    /// The offset this clock holds after it is asked to advance by `step`
    /// from `elapsed`, or `None` where it stays at `elapsed`.
    pub fn elapsed_after(&self, elapsed: Duration, step: Duration) -> (r: Option<Duration>)
        ensures
            match r {
                Some(next) => Self::offset_after(
                    self.local_epoch(),
                    duration_nanos(elapsed),
                    duration_nanos(step),
                ) == Some(duration_nanos(next)),
                None => Self::offset_after(
                    self.local_epoch(),
                    duration_nanos(elapsed),
                    duration_nanos(step),
                ) is None,
            },
    {
        match elapsed.checked_add(step) {
            Some(next) => {
                if self.local_epoch.checked_add(next).is_some() {
                    Some(next)
                } else {
                    None
                }
            },
            None => None,
        }
    }

    /// Moves the clock forward by `duration`, for every holder of the clock at
    /// once. Returns whether it moved: it stays where it is when the new
    /// offset would be beyond what a duration or the platform's instants can
    /// hold.
    pub fn advance(&self, duration: Duration) -> (moved: bool)
        ensures
            exists|elapsed: Duration|
                moved == (#[trigger] Self::offset_after(
                    self.local_epoch(),
                    duration_nanos(elapsed),
                    duration_nanos(duration),
                ) is Some),
    {
        let mut guard = acquire(&self.elapsed);
        let elapsed = load(&guard);
        match self.elapsed_after(elapsed, duration) {
            Some(next) => {
                store(&mut guard, next);
                true
            },
            None => false,
        }
    }
}

impl Clock for MockClock {
    open spec fn source(&self) -> ClockSource {
        self.local_epoch().source
    }

    /// The epoch plus the offset that the clock holds at the time of the call.
    fn now(&self) -> (t: Instant)
        ensures
            exists|elapsed: Duration| t@ == #[trigger] Self::reading_at(
                self.local_epoch(),
                duration_nanos(elapsed),
            ),
            t@.ticks >= self.local_epoch().ticks,
    {
        let guard = acquire(&self.elapsed);
        let elapsed = load(&guard);
        self.instant_at(elapsed)
    }
}

} // verus!
