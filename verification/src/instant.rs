//! Timestamps that remember which clock produced them.
//!
//! An [`Instant`] pairs a reading of the platform's monotonic timer with the
//! [`ClockSource`] of the clock it came from. Measuring the time between two
//! instants only makes sense when both came from the same clock, so every
//! operation that does so demands equal sources as a precondition: mixing two
//! time bases is rejected when the caller is verified, not discovered in a
//! meaningless duration later.

use crate::source::ClockSource;
use crate::time::{duration_nanos, instant_ticks, platform_order, representable};
use std::cmp::Ordering;
use std::ops::{Add, AddAssign, Sub, SubAssign};
use std::time::Duration;
use vstd::prelude::*;
use vstd::std_specs::cmp::{PartialEqSpecImpl, PartialOrdSpecImpl};
use vstd::std_specs::ops::{AddSpecImpl, SubSpecImpl};

verus! {

/// What an [`Instant`] means: a point on its clock's timeline.
pub ghost struct InstantView {
    /// Nanoseconds from the origin of the platform's monotonic timeline.
    pub ticks: int,
    /// The clock the instant belongs to.
    pub source: ClockSource,
}

impl InstantView {
    /// The point `nanos` nanoseconds later on the same clock.
    pub open spec fn after(self, nanos: nat) -> InstantView {
        InstantView { ticks: self.ticks + nanos, source: self.source }
    }

    /// The point `nanos` nanoseconds earlier on the same clock.
    pub open spec fn before(self, nanos: nat) -> InstantView {
        InstantView { ticks: self.ticks - nanos, source: self.source }
    }

    /// The order of instants: by position on the timeline first, and by
    /// source between instants at the same position.
    pub open spec fn precedes(self, other: InstantView) -> bool {
        self.ticks < other.ticks || (self.ticks == other.ticks && self.source.precedes(
            other.source,
        ))
    }

    /// Nanoseconds from `earlier` to `self`; negative when `earlier` is in
    /// fact the later of the two.
    pub open spec fn span_since(self, earlier: InstantView) -> int {
        self.ticks - earlier.ticks
    }

    /// Nanoseconds from `earlier` to `self`, or `None` when `self` precedes
    /// `earlier`.
    pub open spec fn checked_span_since(self, earlier: InstantView) -> Option<nat> {
        if self.ticks >= earlier.ticks {
            Some((self.ticks - earlier.ticks) as nat)
        } else {
            None
        }
    }

    /// Nanoseconds from `earlier` to `self`, or zero when `self` precedes
    /// `earlier`.
    pub open spec fn saturating_span_since(self, earlier: InstantView) -> nat {
        if self.ticks >= earlier.ticks {
            (self.ticks - earlier.ticks) as nat
        } else {
            0
        }
    }

    /// The three ways of measuring from `earlier` to `self` agree wherever
    /// plain subtraction is defined, and part ways only where `self`
    /// precedes `earlier`: there the checked form has no value and the
    /// saturating form is zero.
    pub proof fn lemma_spans_agree(self, earlier: InstantView)
        ensures
            self.ticks >= earlier.ticks ==> self.checked_span_since(earlier) == Some(
                self.span_since(earlier) as nat,
            ) && self.saturating_span_since(earlier) == self.span_since(earlier),
            self.ticks < earlier.ticks ==> self.checked_span_since(earlier) is None
                && self.saturating_span_since(earlier) == 0,
    {
    }

    /// Moving an instant never wraps around: later is later by exactly the
    /// duration, earlier is earlier by exactly the duration, the source stays,
    /// and going there and back returns to the start.
    pub proof fn lemma_shift_is_exact(self, nanos: nat)
        ensures
            self.after(nanos).span_since(self) == nanos,
            self.span_since(self.before(nanos)) == nanos,
            self.after(nanos).source == self.source,
            self.before(nanos).source == self.source,
            self.after(nanos).before(nanos) == self,
            self.before(nanos).after(nanos) == self,
    {
    }
}

/// A point in monotonic time, tagged with the clock that produced it.
///
/// Instants come from a clock's `now` or from adding a duration to, or
/// subtracting one from, another instant; the latter keep the source.
#[derive(Debug, Clone, Copy, Hash, Eq, Ord)]
pub struct Instant {
    inner: std::time::Instant,
    source: ClockSource,
}

impl View for Instant {
    type V = InstantView;

    closed spec fn view(&self) -> InstantView {
        InstantView { ticks: instant_ticks(self.inner), source: self.source }
    }
}

impl Instant {
    /// Tags a platform reading with the clock it was taken for.
    pub(crate) fn from_platform(inner: std::time::Instant, source: ClockSource) -> (t: Instant)
        ensures
            t@ == (InstantView { ticks: instant_ticks(inner), source }),
    {
        Instant { inner, source }
    }

    /// The clock this instant was read from.
    pub fn source(&self) -> (source: ClockSource)
        ensures
            source == self@.source,
    {
        self.source
    }

    /// The platform instant underneath, without its source.
    pub fn to_std(&self) -> (inner: std::time::Instant)
        ensures
            instant_ticks(inner) == self@.ticks,
    {
        self.inner
    }

    /// Every instant lies where the platform can represent one.
    pub proof fn lemma_representable(self)
        ensures
            representable(self@.ticks),
    {
        assert(instant_ticks(self.inner) == self@.ticks);
    }

    /// The time from `earlier` to `self`, for `earlier` not later than `self`.
    pub fn duration_since(&self, earlier: Instant) -> (d: Duration)
        requires
            self@.source == earlier@.source,
            self@.ticks >= earlier@.ticks,
        ensures
            duration_nanos(d) == self@.span_since(earlier@),
    {
        self.inner.duration_since(earlier.inner)
    }

    /// The time from `earlier` to `self`, or `None` when `self` precedes
    /// `earlier`.
    pub fn checked_duration_since(&self, earlier: Instant) -> (r: Option<Duration>)
        requires
            self@.source == earlier@.source,
        ensures
            match r {
                Some(d) => self@.checked_span_since(earlier@) == Some(duration_nanos(d)),
                None => self@.checked_span_since(earlier@) is None,
            },
    {
        self.inner.checked_duration_since(earlier.inner)
    }

    /// The time from `earlier` to `self`, or zero when `self` precedes
    /// `earlier`.
    pub fn saturating_duration_since(&self, earlier: Instant) -> (d: Duration)
        requires
            self@.source == earlier@.source,
        ensures
            duration_nanos(d) == self@.saturating_span_since(earlier@),
    {
        self.inner.saturating_duration_since(earlier.inner)
    }

    /// The instant `duration` later on the same clock, or `None` when the
    /// platform cannot represent it.
    pub fn checked_add(&self, duration: Duration) -> (r: Option<Instant>)
        ensures
            r is Some <==> representable(self@.ticks + duration_nanos(duration)),
            r matches Some(t) ==> t@ == self@.after(duration_nanos(duration)),
    {
        match self.inner.checked_add(duration) {
            Some(inner) => Some(Instant { inner, source: self.source }),
            None => None,
        }
    }

    /// The instant `duration` earlier on the same clock, or `None` when the
    /// platform cannot represent it.
    pub fn checked_sub(&self, duration: Duration) -> (r: Option<Instant>)
        ensures
            r is Some <==> representable(self@.ticks - duration_nanos(duration)),
            r matches Some(t) ==> t@ == self@.before(duration_nanos(duration)),
    {
        match self.inner.checked_sub(duration) {
            Some(inner) => Some(Instant { inner, source: self.source }),
            None => None,
        }
    }
}

/// `==` on instants: the same position on the timeline and the same source.
impl PartialEq for Instant {
    fn eq(&self, other: &Instant) -> (r: bool) {
        match platform_order(&self.inner, &other.inner) {
            Ordering::Equal => self.source == other.source,
            _ => false,
        }
    }
}

impl PartialEqSpecImpl for Instant {
    open spec fn obeys_eq_spec() -> bool {
        true
    }

    open spec fn eq_spec(&self, other: &Instant) -> bool {
        self@ == other@
    }
}

/// `<`, `<=`, `>` and `>=` on instants, by [`InstantView::precedes`]. Instants
/// of different sources are ordered too, though no time can be measured
/// between them.
impl PartialOrd for Instant {
    fn partial_cmp(&self, other: &Instant) -> (r: Option<Ordering>) {
        match platform_order(&self.inner, &other.inner) {
            Ordering::Less => Some(Ordering::Less),
            Ordering::Greater => Some(Ordering::Greater),
            Ordering::Equal => self.source.partial_cmp(&other.source),
        }
    }
}

impl PartialOrdSpecImpl for Instant {
    open spec fn obeys_partial_cmp_spec() -> bool {
        true
    }

    open spec fn partial_cmp_spec(&self, other: &Instant) -> Option<Ordering> {
        if self@.precedes(other@) {
            Some(Ordering::Less)
        } else if other@.precedes(self@) {
            Some(Ordering::Greater)
        } else {
            Some(Ordering::Equal)
        }
    }
}

/// `instant + duration`: the instant `duration` later on the same clock. The
/// sum must be an instant that the platform can represent, as
/// [`Instant::checked_add`] tells.
impl Add<Duration> for Instant {
    type Output = Instant;

    fn add(self, rhs: Duration) -> (t: Instant)
        ensures
            t@ == self@.after(duration_nanos(rhs)),
    {
        Instant { inner: self.inner.checked_add(rhs).unwrap(), source: self.source }
    }
}

impl AddSpecImpl<Duration> for Instant {
    open spec fn obeys_add_spec() -> bool {
        false
    }

    open spec fn add_req(self, rhs: Duration) -> bool {
        representable(self@.ticks + duration_nanos(rhs))
    }

    open spec fn add_spec(self, rhs: Duration) -> Instant {
        self
    }
}

/// `instant += duration`: moves the instant `duration` later, under the
/// condition of `+`.
impl AddAssign<Duration> for Instant {
    fn add_assign(&mut self, rhs: Duration)
        requires
            representable(old(self)@.ticks + duration_nanos(rhs)),
        ensures
            final(self)@ == old(self)@.after(duration_nanos(rhs)),
    {
        *self = *self + rhs;
    }
}

/// `instant - duration`: the instant `duration` earlier on the same clock. The
/// difference must be an instant that the platform can represent, as
/// [`Instant::checked_sub`] tells.
impl Sub<Duration> for Instant {
    type Output = Instant;

    fn sub(self, rhs: Duration) -> (t: Instant)
        ensures
            t@ == self@.before(duration_nanos(rhs)),
    {
        Instant { inner: self.inner.checked_sub(rhs).unwrap(), source: self.source }
    }
}

impl SubSpecImpl<Duration> for Instant {
    open spec fn obeys_sub_spec() -> bool {
        false
    }

    open spec fn sub_req(self, rhs: Duration) -> bool {
        representable(self@.ticks - duration_nanos(rhs))
    }

    open spec fn sub_spec(self, rhs: Duration) -> Instant {
        self
    }
}

/// `later - earlier`: the time between two instants of one clock, for
/// `earlier` not later than `later`.
impl Sub<Instant> for Instant {
    type Output = Duration;

    fn sub(self, rhs: Instant) -> (d: Duration)
        ensures
            duration_nanos(d) == self@.span_since(rhs@),
    {
        self.inner.duration_since(rhs.inner)
    }
}

impl SubSpecImpl<Instant> for Instant {
    open spec fn obeys_sub_spec() -> bool {
        false
    }

    open spec fn sub_req(self, rhs: Instant) -> bool {
        self@.source == rhs@.source && self@.ticks >= rhs@.ticks
    }

    open spec fn sub_spec(self, rhs: Instant) -> Duration {
        arbitrary()
    }
}

/// `instant -= duration`: moves the instant `duration` earlier, under the
/// condition of `-`.
impl SubAssign<Duration> for Instant {
    fn sub_assign(&mut self, rhs: Duration)
        requires
            representable(old(self)@.ticks - duration_nanos(rhs)),
        ensures
            final(self)@ == old(self)@.before(duration_nanos(rhs)),
    {
        *self = *self - rhs;
    }
}

} // verus!
