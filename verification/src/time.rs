//! The boundary with `std::time`.
//!
//! Verus sees neither inside a platform instant nor inside a duration, so this
//! module gives each of them a mathematical reading and states, without proof,
//! what the standard library documents of the handful of operations the rest
//! of the crate calls. Everything else in the crate is proved from these
//! statements.

use std::cmp::Ordering;
use std::time::Duration;
use vstd::prelude::*;

verus! {

/// Makes `std::time::Instant` known to the verifier as an opaque type.
#[verifier::external_type_specification]
#[verifier::external_body]
pub struct ExPlatformInstant(std::time::Instant);

/// Where a platform instant lies on the platform's monotonic timeline, counted
/// in nanoseconds from an origin that the platform fixes and never reveals.
///
/// Trusted: the standard library only promises that instants of one process
/// can be compared and subtracted; this name is the number line on which its
/// documentation describes those operations.
pub uninterp spec fn instant_ticks(t: std::time::Instant) -> int;

/// The length of a duration in nanoseconds: its whole seconds times
/// 1 000 000 000 plus its sub-second nanoseconds.
pub uninterp spec fn duration_nanos(d: Duration) -> nat;

/// Number of nanoseconds in one second.
pub const NANOS_PER_SEC: u64 = 1_000_000_000;

/// Whether some platform instant lies at `ticks`: the bounds of the platform's
/// representation, stated without naming them.
pub open spec fn representable(ticks: int) -> bool {
    exists|t: std::time::Instant| instant_ticks(t) == ticks
}

/// Whether some duration is `nanos` long.
pub open spec fn duration_representable(nanos: nat) -> bool {
    exists|d: Duration| duration_nanos(d) == nanos
}

/// `Duration::new`: a duration of `secs` seconds and `nanos` nanoseconds, the
/// nanoseconds beyond one second carried into the seconds. It panics when that
/// carry overflows the seconds, which the precondition leaves out.
pub assume_specification[ Duration::new ](secs: u64, nanos: u32) -> (d: Duration)
    requires
        secs + nanos / 1_000_000_000 <= u64::MAX,
    ensures
        duration_nanos(d) == secs * NANOS_PER_SEC + nanos,
;

/// `Duration::checked_add`: the sum of the two durations, or `None` when no
/// duration is that long.
pub assume_specification[ Duration::checked_add ](a: Duration, b: Duration) -> (r: Option<Duration>)
    ensures
        match r {
            Some(sum) => duration_nanos(sum) == duration_nanos(a) + duration_nanos(b),
            None => !duration_representable(duration_nanos(a) + duration_nanos(b)),
        },
;

/// `Instant::now`: a reading of the platform's monotonic timer. Nothing is
/// claimed of the value, which differs from call to call.
#[verifier::external_body]
pub(crate) fn platform_now() -> (t: std::time::Instant) {
    std::time::Instant::now()
}

/// `Ord::cmp` on two platform instants: which of them is the earlier.
#[verifier::external_body]
pub(crate) fn platform_order(a: &std::time::Instant, b: &std::time::Instant) -> (o: Ordering)
    ensures
        match o {
            Ordering::Less => instant_ticks(*a) < instant_ticks(*b),
            Ordering::Equal => instant_ticks(*a) == instant_ticks(*b),
            Ordering::Greater => instant_ticks(*a) > instant_ticks(*b),
        },
{
    a.cmp(b)
}

/// `Instant::duration_since`: the time from `earlier` to `t`. The standard
/// library reserves the right to panic when `earlier` is the later of the two,
/// so the precondition leaves that out.
pub assume_specification[ std::time::Instant::duration_since ](
    t: &std::time::Instant,
    earlier: std::time::Instant,
) -> (d: Duration)
    requires
        instant_ticks(*t) >= instant_ticks(earlier),
    ensures
        duration_nanos(d) == instant_ticks(*t) - instant_ticks(earlier),
;

/// `Instant::checked_duration_since`: the time from `earlier` to `t`, or `None`
/// when `earlier` is the later of the two.
pub assume_specification[ std::time::Instant::checked_duration_since ](
    t: &std::time::Instant,
    earlier: std::time::Instant,
) -> (r: Option<Duration>)
    ensures
        match r {
            Some(d) => instant_ticks(*t) >= instant_ticks(earlier) && duration_nanos(d)
                == instant_ticks(*t) - instant_ticks(earlier),
            None => instant_ticks(*t) < instant_ticks(earlier),
        },
;

/// `Instant::saturating_duration_since`: the time from `earlier` to `t`, or
/// zero when `earlier` is the later of the two.
pub assume_specification[ std::time::Instant::saturating_duration_since ](
    t: &std::time::Instant,
    earlier: std::time::Instant,
) -> (d: Duration)
    ensures
        duration_nanos(d) == if instant_ticks(*t) >= instant_ticks(earlier) {
            instant_ticks(*t) - instant_ticks(earlier)
        } else {
            0
        },
;

/// `Instant::checked_add`: the instant `d` after `t`, or `None` when the
/// platform cannot represent it.
pub assume_specification[ std::time::Instant::checked_add ](
    t: &std::time::Instant,
    d: Duration,
) -> (r: Option<std::time::Instant>)
    ensures
        match r {
            Some(later) => instant_ticks(later) == instant_ticks(*t) + duration_nanos(d),
            None => !representable(instant_ticks(*t) + duration_nanos(d)),
        },
;

/// `Instant::checked_sub`: the instant `d` before `t`, or `None` when the
/// platform cannot represent it.
pub assume_specification[ std::time::Instant::checked_sub ](
    t: &std::time::Instant,
    d: Duration,
) -> (r: Option<std::time::Instant>)
    ensures
        match r {
            Some(sooner) => instant_ticks(sooner) == instant_ticks(*t) - duration_nanos(d),
            None => !representable(instant_ticks(*t) - duration_nanos(d)),
        },
;

} // verus!
