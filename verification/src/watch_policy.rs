//! The watchdog's decisions at each tick: network reset, early warning,
//! recovery from degraded mode, and the periodic status line.
//!
//! The caller runs the loop: it sleeps a second, counts the tick, reads the
//! clock and the shared state, and performs what `tick` decides.
use vstd::prelude::*;

verus! {

/// Silence, in milliseconds, below which a degraded system recovers.
pub const RECOVERY_SILENCE_MS: u64 = 1000;

/// Silence, in milliseconds, from which the status line reads "WARNING".
pub const STATUS_WARNING_MS: u64 = 3000;

/// A status line is printed every this many ticks.
pub const STATUS_EVERY_TICKS: u64 = 5;

/// The silence between the last heartbeat and now; a clock that went
/// backwards reads as no silence at all.
pub fn silence_ms(now_ms: u64, last_ms: u64) -> (r: u64)
    ensures
        r == (if now_ms >= last_ms {
            now_ms - last_ms
        } else {
            0
        }),
{
    now_ms.saturating_sub(last_ms)
}

/// The mode a status line reports.
#[derive(PartialEq, Eq, Structural, Debug, Clone, Copy)]
pub enum WatchdogMode {
    NetworkTimeout,
    Degraded,
    Warning,
    Normal,
}

impl WatchdogMode {
    /// The label the status line prints.
    pub fn label(&self) -> (s: &'static str)
        ensures
            s@ == (match self {
                WatchdogMode::NetworkTimeout => "NETWORK TIMEOUT"@,
                WatchdogMode::Degraded => "DEGRADED"@,
                WatchdogMode::Warning => "WARNING"@,
                WatchdogMode::Normal => "NORMAL"@,
            }),
    {
        match self {
            WatchdogMode::NetworkTimeout => "NETWORK TIMEOUT",
            WatchdogMode::Degraded => "DEGRADED",
            WatchdogMode::Warning => "WARNING",
            WatchdogMode::Normal => "NORMAL",
        }
    }
}

/// What the watchdog does at one tick.
#[derive(PartialEq, Eq, Structural, Debug, Clone, Copy)]
pub struct WatchdogTick {
    /// Ask for a network reset and restart the heartbeat clock.
    pub reset: bool,
    /// Print an early warning about the silence.
    pub warn: bool,
    /// Leave degraded mode.
    pub recover: bool,
    /// The status line to print, on every fifth tick.
    pub status: Option<WatchdogMode>,
}

/// The mode a status line reports, given the silence and whether the system
/// is still degraded after this tick's recovery check.
pub open spec fn mode_of(silence_ms: u64, timeout_ms: u64, degraded_after: bool) -> WatchdogMode {
    if silence_ms >= timeout_ms {
        WatchdogMode::NetworkTimeout
    } else if degraded_after {
        WatchdogMode::Degraded
    } else if silence_ms >= STATUS_WARNING_MS {
        WatchdogMode::Warning
    } else {
        WatchdogMode::Normal
    }
}

/// The decisions of one tick.
pub open spec fn tick_spec(
    timeout_ms: u64,
    warn_after_ms: u64,
    tick: u64,
    silence_ms: u64,
    degraded: bool,
) -> WatchdogTick {
    let reset = silence_ms >= timeout_ms;
    let recover = degraded && silence_ms < RECOVERY_SILENCE_MS;
    WatchdogTick {
        reset,
        warn: !reset && silence_ms >= warn_after_ms,
        recover,
        status: if tick % STATUS_EVERY_TICKS == 0 {
            Some(mode_of(silence_ms, timeout_ms, degraded && !recover))
        } else {
            None
        },
    }
}

/// The watchdog's thresholds.
pub struct WatchdogPolicy {
    pub timeout_ms: u64,
    pub warn_after_ms: u64,
}

impl WatchdogPolicy {
    /// A policy that resets after `timeout_secs` seconds of silence and warns
    /// after `warn_after_ms` milliseconds of it.
    pub fn new(timeout_secs: u64, warn_after_ms: u64) -> (p: Self)
        requires
            timeout_secs * 1000 <= u64::MAX,
        ensures
            p.timeout_ms == timeout_secs * 1000,
            p.warn_after_ms == warn_after_ms,
    {
        WatchdogPolicy { timeout_ms: timeout_secs * 1000, warn_after_ms }
    }

    /// The decisions at tick number `tick`, after `silence_ms` milliseconds
    /// without data, where `degraded` is whether degraded mode is on.
    pub fn tick(&self, tick: u64, silence_ms: u64, degraded: bool) -> (t: WatchdogTick)
        ensures
            t == tick_spec(self.timeout_ms, self.warn_after_ms, tick, silence_ms, degraded),
            t.recover == (degraded && silence_ms < 1000),
            t.reset == (silence_ms >= self.timeout_ms),
            t.warn == (silence_ms < self.timeout_ms && silence_ms >= self.warn_after_ms),
    {
        let reset = silence_ms >= self.timeout_ms;
        let recover = degraded && silence_ms < RECOVERY_SILENCE_MS;
        let status = if tick % STATUS_EVERY_TICKS == 0 {
            let degraded_after = degraded && !recover;
            let mode = if silence_ms >= self.timeout_ms {
                WatchdogMode::NetworkTimeout
            } else if degraded_after {
                WatchdogMode::Degraded
            } else if silence_ms >= STATUS_WARNING_MS {
                WatchdogMode::Warning
            } else {
                WatchdogMode::Normal
            };
            Some(mode)
        } else {
            None
        };
        WatchdogTick { reset, warn: !reset && silence_ms >= self.warn_after_ms, recover, status }
    }
}

/// A reset is asked for exactly when the silence reaches the timeout, and a
/// warning is never given at the same tick as a reset.
pub proof fn lemma_reset_exactly_on_timeout(
    timeout_ms: u64,
    warn_after_ms: u64,
    tick: u64,
    silence_ms: u64,
    degraded: bool,
)
    ensures
        tick_spec(timeout_ms, warn_after_ms, tick, silence_ms, degraded).reset <==> silence_ms >= timeout_ms,
        !(tick_spec(timeout_ms, warn_after_ms, tick, silence_ms, degraded).reset && tick_spec(
            timeout_ms,
            warn_after_ms,
            tick,
            silence_ms,
            degraded,
        ).warn),
{
}

/// A tick that recovers from degraded mode never reports the status
/// "DEGRADED", and a system that was not degraded is never told to recover.
pub proof fn lemma_recovery_clears_degraded_status(
    timeout_ms: u64,
    warn_after_ms: u64,
    tick: u64,
    silence_ms: u64,
    degraded: bool,
)
    ensures
        tick_spec(timeout_ms, warn_after_ms, tick, silence_ms, degraded).recover ==> tick_spec(
            timeout_ms,
            warn_after_ms,
            tick,
            silence_ms,
            degraded,
        ).status != Some(WatchdogMode::Degraded),
        !degraded ==> !tick_spec(timeout_ms, warn_after_ms, tick, silence_ms, degraded).recover,
{
}

/// The watchdog's checks run at every tick; only the status line waits for
/// every fifth. Whatever the tick number, a degraded system recovers exactly
/// when data came within the last second, a reset is asked for exactly when
/// the silence reaches the timeout, and a warning is given exactly when the
/// silence reaches the warning threshold without a reset; two ticks that
/// see the same silence and state decide these alike.
pub proof fn lemma_checks_run_every_tick(
    timeout_ms: u64,
    warn_after_ms: u64,
    tick: u64,
    other_tick: u64,
    silence_ms: u64,
    degraded: bool,
)
    ensures
        tick_spec(timeout_ms, warn_after_ms, tick, silence_ms, degraded).recover <==> (degraded && silence_ms
            < 1000),
        tick_spec(timeout_ms, warn_after_ms, tick, silence_ms, degraded).reset <==> silence_ms >= timeout_ms,
        tick_spec(timeout_ms, warn_after_ms, tick, silence_ms, degraded).warn <==> (silence_ms < timeout_ms
            && silence_ms >= warn_after_ms),
        tick_spec(timeout_ms, warn_after_ms, tick, silence_ms, degraded).recover == tick_spec(
            timeout_ms,
            warn_after_ms,
            other_tick,
            silence_ms,
            degraded,
        ).recover,
        tick_spec(timeout_ms, warn_after_ms, tick, silence_ms, degraded).reset == tick_spec(
            timeout_ms,
            warn_after_ms,
            other_tick,
            silence_ms,
            degraded,
        ).reset,
        tick_spec(timeout_ms, warn_after_ms, tick, silence_ms, degraded).warn == tick_spec(
            timeout_ms,
            warn_after_ms,
            other_tick,
            silence_ms,
            degraded,
        ).warn,
        tick_spec(timeout_ms, warn_after_ms, tick, silence_ms, degraded).status is Some <==> tick % 5 == 0,
{
}

} // verus!
