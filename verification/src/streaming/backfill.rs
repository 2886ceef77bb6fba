//! The backfill cursor: how much of the stream to request again after a gap.
//!
//! The cursor remembers the last item that was processed. On reconnect the
//! time since then, in whole minutes and rounded up, is requested again, but
//! never more than the configured maximum: what lies further back is given
//! up, and the reconnect goes ahead. Times are milliseconds since the Unix
//! epoch.

use vstd::prelude::*;

verus! {

/// The last item that was processed.
#[derive(Debug)]
pub struct BackfillCursor {
    /// The identifier of the last item.
    pub last_seen_id: Option<String>,
    /// When the last item was processed.
    pub last_seen_at: Option<i64>,
}

/// The longest window requested where none is configured: 5 minutes.
pub const DEFAULT_MAX_BACKFILL_MINUTES: u32 = 5;

/// The number of milliseconds in a minute.
pub const MILLIS_PER_MINUTE: u64 = 60000;

/// The whole minutes needed to cover the time from `last_seen_at` to `now`:
/// the gap rounded up, and at least one.
pub open spec fn gap_minutes(last_seen_at: int, now: int) -> nat {
    if now <= last_seen_at {
        1
    } else if (now - last_seen_at) % 60000 == 0 {
        ((now - last_seen_at) / 60000) as nat
    } else {
        ((now - last_seen_at) / 60000 + 1) as nat
    }
}

/// The backfill window in minutes for a reconnect at `now`: none without a
/// processed item or with a maximum of zero, else the minutes that cover the
/// gap, capped at the maximum.
pub open spec fn backfill_window(last_seen_at: Option<i64>, now: i64, max_minutes: u32) -> Option<
    u32,
> {
    match last_seen_at {
        Some(at) => if max_minutes == 0 {
            None
        } else if gap_minutes(at as int, now as int) >= max_minutes {
            Some(max_minutes)
        } else {
            Some(gap_minutes(at as int, now as int) as u32)
        },
        None => None,
    }
}

/// The later of the time already seen and a new one.
pub open spec fn advanced_to(seen: Option<i64>, at: i64) -> i64 {
    match seen {
        Some(t) => if t > at {
            t
        } else {
            at
        },
        None => at,
    }
}

impl BackfillCursor {
    /// A cursor that has seen nothing.
    pub fn new() -> (cursor: Self)
        ensures
            cursor.last_seen_id is None,
            cursor.last_seen_at is None,
    {
        Self { last_seen_id: None, last_seen_at: None }
    }

    /// Records that the item `id` was processed at `at`. The cursor is never
    /// rewound: its time only moves forward.
    pub fn advance(&mut self, id: &str, at: i64)
        ensures
            final(self).last_seen_id matches Some(seen) && seen@ == id@,
            final(self).last_seen_at == Some(advanced_to(old(self).last_seen_at, at)),
            old(self).last_seen_at matches Some(before) ==> advanced_to(old(self).last_seen_at, at)
                >= before,
    {
        let at = match self.last_seen_at {
            Some(seen) => if seen > at {
                seen
            } else {
                at
            },
            None => at,
        };
        self.last_seen_id = Some(id.to_owned());
        self.last_seen_at = Some(at);
    }

    /// The backfill window in minutes for a reconnect at `now`, never more
    /// than `max_minutes`.
    pub fn window(&self, now: i64, max_minutes: u32) -> (minutes: Option<u32>)
        ensures
            minutes == backfill_window(self.last_seen_at, now, max_minutes),
            minutes matches Some(m) ==> 1 <= m <= max_minutes,
    {
        match self.last_seen_at {
            Some(at) => {
                if max_minutes == 0 {
                    None
                } else if now <= at {
                    Some(1)
                } else {
                    let gap: i128 = now as i128 - at as i128;
                    let whole: i128 = gap / 60000;
                    let minutes: i128 = if gap % 60000 == 0 {
                        whole
                    } else {
                        whole + 1
                    };
                    if minutes >= max_minutes as i128 {
                        Some(max_minutes)
                    } else {
                        Some(minutes as u32)
                    }
                }
            },
            None => None,
        }
    }
}

/// A gap longer than the maximum window is clamped, not rejected: the window
/// is the maximum itself, however long the gap.
pub proof fn lemma_long_gap_is_clamped(last_seen_at: i64, now: i64, max_minutes: u32)
    requires
        max_minutes > 0,
        now - last_seen_at > max_minutes * 60000,
    ensures
        backfill_window(Some(last_seen_at), now, max_minutes) == Some(max_minutes),
{
}

/// A window never exceeds the maximum, is at least one minute, and covers
/// the whole gap whenever the gap fits into the maximum.
pub proof fn lemma_window_bounds(last_seen_at: i64, now: i64, max_minutes: u32)
    ensures
        backfill_window(Some(last_seen_at), now, max_minutes) matches Some(m) ==> 1 <= m
            <= max_minutes,
        backfill_window(Some(last_seen_at), now, max_minutes) is Some <==> max_minutes > 0,
        backfill_window(Some(last_seen_at), now, max_minutes) matches Some(m) ==> (m * 60000 >= now
            - last_seen_at || m == max_minutes),
{
}

} // verus!
