use wiki_stream::stats::{
    deadline_verdict, human_tail_better, max_of, percentile, rank_of, sorted_copy, sum_of, summarize,
    DeadlineVerdict,
};

#[test]
fn percentile_of_empty_is_zero() {
    assert_eq!(percentile(&[], 50), 0);
    assert_eq!(percentile(&[], 99), 0);
}

#[test]
fn percentile_uses_nearest_rank() {
    let v: Vec<u64> = (1..=10).rev().collect();
    assert_eq!(percentile(&v, 50), 5);
    assert_eq!(percentile(&v, 90), 9);
    assert_eq!(percentile(&v, 99), 10);
    assert_eq!(percentile(&v, 0), 1);
    assert_eq!(percentile(&v, 250), 10);
}

#[test]
fn percentile_of_small_list() {
    assert_eq!(percentile(&[7, 3, 5], 50), 5);
    assert_eq!(percentile(&[7, 3, 5], 90), 7);
    assert_eq!(percentile(&[4], 1), 4);
}

#[test]
fn rank_is_ceiling_minus_one() {
    assert_eq!(rank_of(10, 50), 4);
    assert_eq!(rank_of(3, 50), 1);
    assert_eq!(rank_of(100, 99), 98);
    assert_eq!(rank_of(101, 99), 99);
    assert_eq!(rank_of(1, 0), 0);
}

#[test]
fn sorted_copy_sorts_ascending() {
    assert_eq!(sorted_copy(&[3, 1, 2, 1]), vec![1, 1, 2, 3]);
}

#[test]
fn sum_and_max() {
    assert_eq!(sum_of(&[]), 0);
    assert_eq!(sum_of(&[u64::MAX, u64::MAX]), 2 * (u64::MAX as u128));
    assert_eq!(max_of(&[]), 0);
    assert_eq!(max_of(&[4, 9, 2]), 9);
}

#[test]
fn summary_of_drifts() {
    let v: Vec<u64> = (1..=100).collect();
    let s = summarize(&v);
    assert_eq!(s.samples, 100);
    assert_eq!(s.total_us, 5050);
    assert_eq!(s.p50_us, 50);
    assert_eq!(s.p90_us, 90);
    assert_eq!(s.p99_us, 99);
    assert_eq!(s.max_us, 100);
    assert!(s.p50_us <= s.p90_us && s.p90_us <= s.p99_us && s.p99_us <= s.max_us);
}

#[test]
fn tail_comparison() {
    assert_eq!(human_tail_better(100, 200), Some(true));
    assert_eq!(human_tail_better(300, 200), Some(false));
    assert_eq!(human_tail_better(200, 200), Some(false));
    assert_eq!(human_tail_better(0, 200), None);
    assert_eq!(human_tail_better(100, 0), None);
}

#[test]
fn deadline_verdicts() {
    assert_eq!(deadline_verdict(0, 0), DeadlineVerdict::NothingProcessed);
    assert_eq!(deadline_verdict(0, 10), DeadlineVerdict::AllMet);
    assert_eq!(deadline_verdict(3, 10), DeadlineVerdict::SomeMissed);
}
