//! Heartbeat supervision of a stream.
//!
//! Every frame that arrives, a keepalive included, is a sign of life. A
//! watchdog looks at the time of the last one at regular intervals; a stream
//! that has been silent for longer than the timeout counts as dead. Times are
//! milliseconds since the Unix epoch, durations are milliseconds.

use vstd::prelude::*;

verus! {

/// When the last frame arrived, and how long silence is tolerated.
#[derive(Debug, Clone, Copy, PartialEq, Eq, Structural)]
pub struct HeartbeatState {
    /// When the last frame arrived.
    pub last_frame_at: i64,
    /// The longest tolerated silence.
    pub timeout: u64,
}

/// The timeout used where none is configured: 90 seconds.
pub const DEFAULT_HEARTBEAT_TIMEOUT: u64 = 90000;

/// Whether a stream whose last frame arrived at `last_frame_at` has been
/// silent for longer than `timeout` when the clock shows `now`.
pub open spec fn silent_too_long(last_frame_at: int, timeout: int, now: int) -> bool {
    now - last_frame_at > timeout
}

impl HeartbeatState {
    /// Whether the stream has been silent for longer than the timeout when
    /// the clock shows `now`.
    pub open spec fn spec_expired(&self, now: i64) -> bool {
        silent_too_long(self.last_frame_at as int, self.timeout as int, now as int)
    }

    /// A heartbeat whose last sign of life is `now`.
    pub fn new(timeout: u64, now: i64) -> (heartbeat: Self)
        ensures
            heartbeat == (HeartbeatState { last_frame_at: now, timeout }),
            !heartbeat.spec_expired(now),
    {
        HeartbeatState { last_frame_at: now, timeout }
    }

    /// Records a frame that arrived at `now`.
    pub fn touch(&mut self, now: i64)
        ensures
            *final(self) == (HeartbeatState { last_frame_at: now, timeout: old(self).timeout }),
            !final(self).spec_expired(now),
    {
        self.last_frame_at = now;
    }

    /// Whether the stream has been silent for longer than the timeout when
    /// the clock shows `now`.
    pub fn expired(&self, now: i64) -> (expired: bool)
        ensures
            expired == self.spec_expired(now),
    {
        let silence: i128 = now as i128 - self.last_frame_at as i128;
        silence > self.timeout as i128
    }

    /// The interval at which the watchdog should look: half the timeout.
    pub fn watchdog_interval(&self) -> (millis: u64)
        ensures
            millis == self.timeout / 2,
    {
        self.timeout / 2
    }
}

/// A watchdog that looks every `interval` milliseconds, starting at `start`,
/// looks at a dead stream within one interval of the moment at which it
/// died: one of its ticks lies after `expiry` and at most `interval` later.
pub proof fn lemma_watchdog_ticks_within_interval(start: int, interval: int, expiry: int)
    requires
        interval > 0,
        start <= expiry,
    ensures
        exists|k: int| k >= 0 && expiry < #[trigger] (start + k * interval) <= expiry + interval,
{
    let gap = expiry - start;
    let k = gap / interval + 1;
    assert(gap == interval * (gap / interval) + gap % interval && 0 <= gap % interval < interval
        && gap / interval >= 0) by (nonlinear_arith)
        requires
            interval > 0,
            gap >= 0,
    ;
    assert(k * interval == interval * (gap / interval) + interval) by (nonlinear_arith)
        requires
            k == gap / interval + 1,
    ;
    assert(expiry < start + k * interval <= expiry + interval);
}

/// A frame resets the heartbeat: after a frame at `frame_at` the stream does
/// not count as dead until more than the timeout has passed again, and does
/// so from then on.
pub proof fn lemma_frame_resets_heartbeat(before: HeartbeatState, frame_at: i64, now: i64)
    ensures
        ({
            let after = HeartbeatState { last_frame_at: frame_at, timeout: before.timeout };
            after.spec_expired(now) <==> now - frame_at > before.timeout
        }),
{
}

} // verus!
