use wiki_stream::config::{DEADLINE_US, JITTER_THRESHOLD_US, JITTER_WINDOW, SUMMARY_EVERY};
use wiki_stream::jitter::JitterTracker;
use wiki_stream::processor::{Admitted, ProcessorState};

#[test]
fn jitter_window_keeps_the_latest_drifts() {
    let mut t = JitterTracker::new(3, 100);
    for d in [1, 2, 3, 4, 5] {
        t.record(d);
    }
    assert_eq!(t.len(), 3);
    assert_eq!(t.total_drift_us(), 3 + 4 + 5);
}

#[test]
fn jitter_not_exceeded_until_window_full() {
    let mut t = JitterTracker::new(3, 100);
    t.record(1000);
    t.record(1000);
    assert!(!t.is_jitter_exceeded());
    t.record(1000);
    assert!(t.is_jitter_exceeded());
}

#[test]
fn jitter_compares_average_strictly() {
    let mut t = JitterTracker::new(2, 100);
    t.record(100);
    t.record(100);
    assert!(!t.is_jitter_exceeded());
    t.record(101);
    assert!(t.is_jitter_exceeded());
}

#[test]
fn jitter_with_zero_window_never_exceeds() {
    let t = JitterTracker::new(0, 0);
    assert!(!t.is_jitter_exceeded());
}

#[test]
fn drift_over_deadline_is_a_miss() {
    let mut p = ProcessorState::new(DEADLINE_US, JITTER_WINDOW, JITTER_THRESHOLD_US, SUMMARY_EVERY);
    let c = p.check_drift(2000, false);
    assert!(!c.deadline_missed);
    let c = p.check_drift(2001, false);
    assert!(c.deadline_missed);
    assert_eq!(p.deadline_misses(), 1);
    assert_eq!(p.total(), 0);
}

#[test]
fn full_window_of_high_drift_enters_degraded_mode() {
    let mut p = ProcessorState::new(2000, 2, 50_000, 50);
    assert_eq!(p.check_drift(60_000, false).degraded_store, None);
    assert_eq!(p.check_drift(60_000, false).degraded_store, Some(true));
    // already degraded: nothing to write
    assert_eq!(p.check_drift(60_000, true).degraded_store, None);
    // low drift never switches degraded mode off
    assert_eq!(p.check_drift(0, true).degraded_store, None);
}

#[test]
fn degraded_mode_drops_bot_edits_only() {
    let mut p = ProcessorState::new(2000, 20, 50_000, 50);
    assert_eq!(p.accept(true, 10, true, true), None);
    assert_eq!(p.total(), 0);
    assert!(p.bot_drift().is_empty());
    assert_eq!(
        p.accept(false, 11, true, true),
        Some(Admitted { total: 1, acknowledge_reset: true, summary_due: false })
    );
    assert_eq!(
        p.accept(true, 12, false, false),
        Some(Admitted { total: 2, acknowledge_reset: false, summary_due: false })
    );
    assert_eq!(p.human_drift(), &vec![11]);
    assert_eq!(p.bot_drift(), &vec![12]);
}

#[test]
fn summary_is_due_every_fiftieth_edit() {
    let mut p = ProcessorState::new(2000, 20, 50_000, SUMMARY_EVERY);
    for i in 1..=100u64 {
        let a = p.accept(i % 2 == 0, i, false, false).unwrap();
        assert_eq!(a.total, i);
        assert_eq!(a.summary_due, i == 50 || i == 100);
    }
    assert_eq!(p.human_drift().len() + p.bot_drift().len(), 100);
}

#[test]
fn jitter_window_of_processor_sees_every_checked_edit() {
    let mut p = ProcessorState::new(2000, 3, 50_000, 50);
    p.check_drift(5, false);
    p.check_drift(6, false);
    assert_eq!(p.jitter().len(), 2);
    assert_eq!(p.jitter().total_drift_us(), 11);
}
