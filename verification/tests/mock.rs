use monotonic::{Clock, ClockExt, ClockIds, ClockSource, MockClock};
use std::sync::Arc;
use std::time::Duration;

#[test]
fn fresh_mock_clock_has_not_moved() {
    let mut ids = ClockIds::new();
    let clock = MockClock::new(&mut ids);
    let start = clock.now();
    assert_eq!(clock.now() - start, Duration::ZERO);
    assert_eq!(clock.now(), start);
    assert_eq!(clock.elapsed_since(start), Duration::ZERO);
    assert_eq!(clock.instant_at(Duration::ZERO), start);
}

#[test]
fn mock_elapsed_is_the_sum_of_advances() {
    let mut ids = ClockIds::new();
    let clock = MockClock::new(&mut ids);
    let start = clock.now();

    let d1 = Duration::new(3, 999_999_999);
    let d2 = Duration::new(7, 2);
    assert!(clock.advance(d1));
    assert_eq!(clock.elapsed_since(start), d1);
    assert!(clock.advance(d2));
    assert_eq!(clock.elapsed_since(start), Duration::new(11, 1));
    assert_eq!(clock.now(), start + Duration::new(11, 1));
    assert_eq!(clock.now() - start, d1 + d2);
}

#[test]
fn advance_by_zero_keeps_the_reading() {
    let mut ids = ClockIds::new();
    let clock = MockClock::new(&mut ids);
    let start = clock.now();
    assert!(clock.advance(Duration::ZERO));
    assert_eq!(clock.now(), start);
}

#[test]
fn mock_clock_only_moves_when_advanced() {
    let mut ids = ClockIds::new();
    let clock = MockClock::new(&mut ids);
    let start = clock.now();
    let reference = std::time::Instant::now();
    while reference.elapsed() < Duration::from_millis(2) {
        std::hint::spin_loop();
    }
    assert_eq!(clock.elapsed_since(start), Duration::ZERO);
}

#[test]
fn advance_beyond_the_range_leaves_the_clock_alone() {
    let mut ids = ClockIds::new();
    let clock = MockClock::new(&mut ids);
    let start = clock.now();

    assert!(clock.advance(Duration::from_secs(1)));
    // no duration is that long
    assert!(!clock.advance(Duration::MAX));
    assert_eq!(clock.elapsed_since(start), Duration::from_secs(1));
    // a duration is that long, but no instant lies that far from the epoch
    assert!(!clock.advance(Duration::MAX - Duration::from_secs(2)));
    assert_eq!(clock.elapsed_since(start), Duration::from_secs(1));
    assert!(clock.advance(Duration::from_secs(1)));
    assert_eq!(clock.elapsed_since(start), Duration::from_secs(2));
}

#[test]
fn instant_at_is_the_epoch_plus_the_offset() {
    let mut ids = ClockIds::new();
    let clock = MockClock::new(&mut ids);
    let epoch = clock.now();
    let offset = Duration::new(42, 7);
    assert_eq!(clock.instant_at(offset), epoch + offset);
    assert_eq!(clock.instant_at(offset) - epoch, offset);
    assert_eq!(clock.instant_at(offset).source(), epoch.source());
    // an offset the platform cannot reach reads as the epoch
    assert_eq!(clock.instant_at(Duration::MAX), epoch);
}

#[test]
fn elapsed_after_is_the_sum_or_nothing() {
    let mut ids = ClockIds::new();
    let clock = MockClock::new(&mut ids);
    assert_eq!(
        clock.elapsed_after(Duration::new(1, 600_000_000), Duration::new(2, 700_000_000)),
        Some(Duration::new(4, 300_000_000))
    );
    assert_eq!(clock.elapsed_after(Duration::ZERO, Duration::ZERO), Some(Duration::ZERO));
    assert_eq!(clock.elapsed_after(Duration::MAX, Duration::from_nanos(1)), None);
    assert_eq!(clock.elapsed_after(Duration::from_nanos(1), Duration::MAX), None);
    assert_eq!(clock.elapsed_after(Duration::ZERO, Duration::MAX), None);
}

#[test]
fn mock_clocks_receive_distinct_identities() {
    let mut ids = ClockIds::new();
    let c1 = MockClock::new(&mut ids);
    let c2 = MockClock::new(&mut ids);
    let c3 = MockClock::new_shared(&mut ids);
    assert_eq!(c1.now().source(), ClockSource::Mock(0));
    assert_eq!(c2.now().source(), ClockSource::Mock(1));
    assert_eq!(c3.now().source(), ClockSource::Mock(2));
    assert_ne!(c1.now().source(), c2.now().source());
    assert_ne!(c1.now(), c2.now());
}

#[test]
fn advancing_one_clock_leaves_another_alone() {
    let mut ids = ClockIds::new();
    let c1 = MockClock::new(&mut ids);
    let c2 = MockClock::new(&mut ids);
    let s1 = c1.now();
    let s2 = c2.now();
    assert!(c1.advance(Duration::from_secs(9)));
    assert_eq!(c1.elapsed_since(s1), Duration::from_secs(9));
    assert_eq!(c2.elapsed_since(s2), Duration::ZERO);
}

// Eight holders of one clock advance it a thousand times each by one
// nanosecond; no advance is lost.
#[test]
fn advances_through_shared_handles_are_not_lost() {
    let mut ids = ClockIds::new();
    let clock = MockClock::new_shared(&mut ids);
    let start = clock.now();

    let holders: Vec<Arc<MockClock>> = (0..8).map(|_| Arc::clone(&clock)).collect();
    for round in 0..1000u64 {
        for (turn, holder) in holders.iter().enumerate() {
            assert!(holder.advance(Duration::from_nanos(1)));
            assert_eq!(
                clock.elapsed_since(start),
                Duration::from_nanos(round * 8 + turn as u64 + 1)
            );
        }
    }

    assert_eq!(clock.elapsed_since(start), Duration::from_nanos(8 * 1000));
}
