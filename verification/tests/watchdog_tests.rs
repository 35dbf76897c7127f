use wiki_stream::config::{ASYNC_WARN_AFTER_MS, THREAD_WARN_AFTER_MS, WATCHDOG_SECS};
use wiki_stream::watch_policy::{silence_ms, WatchdogMode, WatchdogPolicy, WatchdogTick};
use wiki_stream::watchdog::WatchdogState;

#[test]
fn silence_saturates_at_zero() {
    assert_eq!(silence_ms(5000, 2000), 3000);
    assert_eq!(silence_ms(2000, 5000), 0);
}

#[test]
fn policy_timeout_in_millis() {
    let p = WatchdogPolicy::new(WATCHDOG_SECS, THREAD_WARN_AFTER_MS);
    assert_eq!(p.timeout_ms, 10_000);
    assert_eq!(p.warn_after_ms, 2000);
}

#[test]
fn long_silence_asks_for_reset() {
    let p = WatchdogPolicy::new(10, THREAD_WARN_AFTER_MS);
    let t = p.tick(5, 10_000, false);
    assert_eq!(
        t,
        WatchdogTick { reset: true, warn: false, recover: false, status: Some(WatchdogMode::NetworkTimeout) }
    );
}

#[test]
fn threaded_watchdog_warns_from_two_seconds() {
    let p = WatchdogPolicy::new(10, THREAD_WARN_AFTER_MS);
    assert!(p.tick(1, 2000, false).warn);
    assert!(!p.tick(1, 1999, false).warn);
    assert_eq!(p.tick(1, 2500, false).status, None);
}

#[test]
fn async_watchdog_warns_from_three_seconds() {
    let p = WatchdogPolicy::new(10, ASYNC_WARN_AFTER_MS);
    assert!(!p.tick(1, 2500, false).warn);
    assert!(p.tick(1, 3000, false).warn);
}

#[test]
fn quiet_stream_recovers_from_degraded_mode() {
    let p = WatchdogPolicy::new(10, THREAD_WARN_AFTER_MS);
    let t = p.tick(10, 500, true);
    assert!(t.recover);
    assert_eq!(t.status, Some(WatchdogMode::Normal));
    let t = p.tick(10, 1500, true);
    assert!(!t.recover);
    assert_eq!(t.status, Some(WatchdogMode::Degraded));
    assert!(!p.tick(10, 500, false).recover);
}

#[test]
fn status_modes_and_labels() {
    let p = WatchdogPolicy::new(10, THREAD_WARN_AFTER_MS);
    assert_eq!(p.tick(5, 3000, false).status, Some(WatchdogMode::Warning));
    assert_eq!(p.tick(5, 2999, false).status, Some(WatchdogMode::Normal));
    assert_eq!(WatchdogMode::NetworkTimeout.label(), "NETWORK TIMEOUT");
    assert_eq!(WatchdogMode::Degraded.label(), "DEGRADED");
    assert_eq!(WatchdogMode::Warning.label(), "WARNING");
    assert_eq!(WatchdogMode::Normal.label(), "NORMAL");
}

#[test]
fn watchdog_state_is_shared_between_clones() {
    let s = WatchdogState::new(1000);
    let c = s.clone_state();
    assert!(!s.is_degraded());
    assert!(!s.reset_requested());
    c.degraded_mode.store(true, std::sync::atomic::Ordering::Relaxed);
    assert!(s.is_degraded());
    c.reset_requested.store(true, std::sync::atomic::Ordering::Relaxed);
    assert!(s.reset_requested());
    s.clear_reset();
    assert!(!c.reset_requested());
    c.heartbeat(4242);
    assert_eq!(s.last_heartbeat.load(std::sync::atomic::Ordering::Relaxed), 4242);
}
