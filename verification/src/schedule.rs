//! The fixed delays of the monitoring engine, in milliseconds.

use vstd::prelude::*;

verus! {

/// The reader presence loop aims at one iteration per this interval.
pub const READER_POLL_INTERVAL_MS: u64 = 1000;

/// The pause of the reader presence loop after an iteration that took the
/// whole interval or longer.
pub const READER_POLL_BACKOFF_MS: u64 = 100;

/// The pause of the card loop between iterations.
pub const CARD_POLL_INTERVAL_MS: u64 = 200;

/// The delay before monitoring is restarted after a reader appeared.
pub const RESTART_DELAY_MS: u64 = 1000;

/// A gap between two signs of activity longer than this suggests that the
/// host was suspended. A heuristic value, open to tuning.
pub const SLEEP_THRESHOLD_MS: u64 = 30000;

/// The time given to the device subsystem to come back after a suspected
/// suspension. A heuristic value, open to tuning.
pub const RECOVERY_GRACE_MS: u64 = 5000;

/// The pause after an iteration of the reader presence loop that took
/// `elapsed_ms`: what is left of the interval, or the short backoff when
/// nothing is left.
pub open spec fn reader_poll_pause(elapsed_ms: u64) -> u64 {
    if elapsed_ms < READER_POLL_INTERVAL_MS {
        (READER_POLL_INTERVAL_MS - elapsed_ms) as u64
    } else {
        READER_POLL_BACKOFF_MS
    }
}

/// How long the reader presence loop sleeps after an iteration that took
/// `elapsed_ms`.
pub fn next_reader_poll_delay(elapsed_ms: u64) -> (pause_ms: u64)
    ensures
        pause_ms == reader_poll_pause(elapsed_ms),
        0 < pause_ms <= READER_POLL_INTERVAL_MS,
{
    if elapsed_ms < READER_POLL_INTERVAL_MS {
        READER_POLL_INTERVAL_MS - elapsed_ms
    } else {
        READER_POLL_BACKOFF_MS
    }
}

} // verus!
