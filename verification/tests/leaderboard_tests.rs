use wiki_stream::leaderboard::{AtomicLeaderboard, MutexLeaderboard, RwLockLeaderboard, SyncBenchmark};

fn pairs(v: &[(&str, u64)]) -> Vec<(String, u64)> {
    v.iter().map(|(d, c)| (d.to_string(), *c)).collect()
}

#[test]
fn empty_leaderboard_has_no_leaders() {
    let lb = MutexLeaderboard::new();
    assert!(lb.top3().is_empty());
    assert_eq!(lb.count("en.wikipedia.org"), 0);
}

#[test]
fn increment_counts_one_more_edit() {
    let mut lb = MutexLeaderboard::new();
    lb.increment("en.wikipedia.org");
    assert_eq!(lb.count("en.wikipedia.org"), 1);
    lb.increment("en.wikipedia.org");
    lb.increment("de.wikipedia.org");
    assert_eq!(lb.count("en.wikipedia.org"), 2);
    assert_eq!(lb.count("de.wikipedia.org"), 1);
    assert_eq!(lb.count("fr.wikipedia.org"), 0);
}

#[test]
fn top3_ranks_busiest_first_and_cuts_at_three() {
    let mut lb = RwLockLeaderboard::new();
    for (d, n) in [("a.org", 2), ("b.org", 5), ("c.org", 1), ("d.org", 4)] {
        for _ in 0..n {
            lb.increment(d);
        }
    }
    assert_eq!(lb.top3(), pairs(&[("b.org", 5), ("d.org", 4), ("a.org", 2)]));
}

#[test]
fn top3_with_fewer_domains_lists_them_all() {
    let mut lb = MutexLeaderboard::new();
    lb.increment("x.org");
    lb.increment("y.org");
    lb.increment("y.org");
    assert_eq!(lb.top3(), pairs(&[("y.org", 2), ("x.org", 1)]));
}

#[test]
fn top3_with_ties_keeps_counts_descending() {
    let mut lb = MutexLeaderboard::new();
    for d in ["a.org", "b.org", "c.org", "d.org"] {
        lb.increment(d);
    }
    lb.increment("c.org");
    let top = lb.top3();
    assert_eq!(top.len(), 3);
    assert_eq!(top[0], ("c.org".to_string(), 2));
    assert_eq!(top[1].1, 1);
    assert_eq!(top[2].1, 1);
    assert_ne!(top[1].0, top[2].0);
}

#[test]
fn atomic_total_counts_every_increment() {
    let mut lb = AtomicLeaderboard::new();
    assert_eq!(lb.get_total(), 0);
    lb.increment("a.org");
    lb.increment("b.org");
    lb.increment("a.org");
    assert_eq!(lb.get_total(), 3);
    assert_eq!(lb.count("a.org"), 2);
    assert_eq!(lb.top3(), pairs(&[("a.org", 2), ("b.org", 1)]));
}

#[test]
fn increment_leaves_other_domains_alone() {
    let mut lb = AtomicLeaderboard::new();
    lb.increment("a.org");
    lb.increment("b.org");
    lb.increment("b.org");
    assert_eq!(lb.count("a.org"), 1);
    assert_eq!(lb.count("b.org"), 2);
    let sum: u64 = lb.top3().iter().map(|p| p.1).sum();
    assert_eq!(sum, lb.get_total());
}

#[test]
fn benchmark_records_each_kind_separately() {
    let mut b = SyncBenchmark::new();
    b.record_mutex(10);
    b.record_rwlock(20);
    b.record_rwlock(21);
    b.record_atomic(30);
    assert_eq!(b.mutex_times, vec![10]);
    assert_eq!(b.rwlock_times, vec![20, 21]);
    assert_eq!(b.atomic_times, vec![30]);
}

#[test]
fn increment_since_times_from_the_given_start() {
    let start = std::time::Instant::now();
    while start.elapsed() < std::time::Duration::from_millis(2) {}
    let mut lb = RwLockLeaderboard::new();
    let nanos = lb.increment_since("a.org", &start);
    assert!(nanos >= 2_000_000);
    assert_eq!(lb.count("a.org"), 1);
    let mut alb = AtomicLeaderboard::new();
    let nanos = alb.increment_since("a.org", &start);
    assert!(nanos >= 2_000_000);
    assert_eq!(alb.get_total(), 1);
}

#[test]
fn increment_returns_a_short_duration() {
    let mut lb = MutexLeaderboard::new();
    let nanos = lb.increment("a.org");
    assert!(nanos < 1_000_000_000);
}
