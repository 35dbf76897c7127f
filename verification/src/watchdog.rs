//! The watchdog state that the stream's tasks share: the time of the last
//! heartbeat and the degraded-mode and reset-request flags.
//!
//! Every field is an atomic cell behind an `Arc`, so that the copies made by
//! `clone_state` see one another's writes. What a read returns is whatever
//! some task last wrote, so no contract can say more of it than its type.
use std::sync::atomic::{AtomicBool, AtomicU64, Ordering};
use std::sync::Arc;
use vstd::prelude::*;

verus! {

/// Another handle on the value behind an `Arc` (`Arc::clone`): the contract
/// claims that the new handle refers to the same value.
#[verifier::external_body]
fn share<T>(a: &Arc<T>) -> (r: Arc<T>)
    ensures
        r == *a,
{
    Arc::clone(a)
}

/// The shared watchdog state.
pub struct WatchdogState {
    pub last_heartbeat: Arc<AtomicU64>,
    pub degraded_mode: Arc<AtomicBool>,
    pub reset_requested: Arc<AtomicBool>,
}

impl WatchdogState {
    /// A state whose last heartbeat is `now_ms`, not degraded and with no
    /// reset requested.
    pub fn new(now_ms: u64) -> (s: Self) {
        WatchdogState {
            last_heartbeat: Arc::new(AtomicU64::new(now_ms)),
            degraded_mode: Arc::new(AtomicBool::new(false)),
            reset_requested: Arc::new(AtomicBool::new(false)),
        }
    }

    /// Records a heartbeat at `now_ms`.
    pub fn heartbeat(&self, now_ms: u64) {
        self.last_heartbeat.store(now_ms, Ordering::Relaxed);
    }

    /// Whether degraded mode is on.
    pub fn is_degraded(&self) -> bool {
        self.degraded_mode.load(Ordering::Relaxed)
    }

    /// Whether a network reset has been asked for and not yet acknowledged.
    pub fn reset_requested(&self) -> bool {
        self.reset_requested.load(Ordering::Relaxed)
    }

    /// Acknowledges a requested network reset.
    pub fn clear_reset(&self) {
        self.reset_requested.store(false, Ordering::Relaxed);
    }

    /// Another handle on the same shared state.
    pub fn clone_state(&self) -> (s: WatchdogState)
        ensures
            s.last_heartbeat == self.last_heartbeat,
            s.degraded_mode == self.degraded_mode,
            s.reset_requested == self.reset_requested,
    {
        WatchdogState {
            last_heartbeat: share(&self.last_heartbeat),
            degraded_mode: share(&self.degraded_mode),
            reset_requested: share(&self.reset_requested),
        }
    }
}

} // verus!
