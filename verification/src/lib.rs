//! Edit-stream processing: per-domain leaderboards, jitter tracking,
//! watchdog decisions and the processor's per-edit rules, verified.
pub mod clock;
pub mod config;
pub mod edit;
pub mod jitter;
pub mod leaderboard;
pub mod processor;
pub mod stats;
pub mod tally;
pub mod watch_policy;
pub mod watchdog;
