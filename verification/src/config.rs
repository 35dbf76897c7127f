//! The settings that both pipelines run with.
use vstd::prelude::*;

verus! {

/// Capacity of each of the two edit queues.
pub const CHANNEL_CAPACITY: usize = 10;

/// The micro-deadline: an edit whose drift exceeds this many microseconds
/// (2.0 ms) misses it.
pub const DEADLINE_US: u64 = 2000;

/// Seconds of stream silence after which the watchdog asks for a network reset.
pub const WATCHDOG_SECS: u64 = 10;

/// How many recent drifts the jitter window holds.
pub const JITTER_WINDOW: usize = 20;

/// The average drift, in microseconds (50 ms), above which the system degrades.
pub const JITTER_THRESHOLD_US: u64 = 50_000;

/// A summary is printed after every this many processed edits.
pub const SUMMARY_EVERY: u64 = 50;

/// Silence, in milliseconds, after which the threaded watchdog warns.
pub const THREAD_WARN_AFTER_MS: u64 = 2000;

/// Silence, in milliseconds, after which the async watchdog warns.
pub const ASYNC_WARN_AFTER_MS: u64 = 3000;

} // verus!
