//! Waits of a random length.

use vstd::prelude::*;

use crate::config::Config;

verus! {

/// Calls `rand::random`. Nothing is said of the number that is drawn.
#[verifier::external_body]
fn draw() -> (r: u64) {
    rand::random::<u64>()
}

/// The longest least wait: that of the greatest number of seconds, in milliseconds.
pub const MAX_LEAST_MS: u128 = 18446744073709551615000;

/// Whether a wait, in milliseconds, is at least `least_ms`, and longer by no more than the jitter.
pub open spec fn is_pause(pause_ms: int, least_ms: int, jitter_secs: int) -> bool {
    least_ms <= pause_ms <= least_ms + jitter_secs * 1000
}

/// The wait, in milliseconds, for a number that was drawn: the least wait, and up to the configured
/// jitter on top.
pub fn pause_for(least_ms: u128, jitter_secs: u64, drawn: u64) -> (r: u128)
    requires
        least_ms <= MAX_LEAST_MS,
    ensures
        r == least_ms + drawn as int % (jitter_secs * 1000 + 1),
        is_pause(r as int, least_ms as int, jitter_secs as int),
{
    least_ms + drawn as u128 % (jitter_secs as u128 * 1000 + 1)
}

/// A wait of at least `least_ms`, in milliseconds.
pub fn pause(least_ms: u128, jitter_secs: u64) -> (r: u128)
    requires
        least_ms <= MAX_LEAST_MS,
    ensures
        is_pause(r as int, least_ms as int, jitter_secs as int),
{
    pause_for(least_ms, jitter_secs, draw())
}

/// A wait of the least interval between two shares, in milliseconds.
pub fn share_pause(config: &Config) -> (r: u128)
    ensures
        is_pause(
            r as int,
            config.share_min_interval_secs * 1000,
            config.share_random_jitter_secs as int,
        ),
{
    pause(config.share_min_interval_secs as u128 * 1000, config.share_random_jitter_secs)
}

} // verus!
