//! How many shares may be created in a minute, an hour and a day, and how long after the last one.

use vstd::prelude::*;

use crate::clock::format_utc;
#[allow(unused_imports)]
use crate::clock::{utc_text, DAY_PATTERN, HOUR_PATTERN, MINUTE_PATTERN};
use crate::config::Config;
use crate::text::cat;

verus! {

/// The keys under which the shares of a minute, an hour and a day are counted.
#[derive(Debug)]
pub struct ShareKeys {
    pub minute: String,
    pub hour: String,
    pub day: String,
}

/// How many shares were created in a minute, an hour and a day.
#[derive(Debug, Clone, Copy, PartialEq, Eq, Structural)]
pub struct ShareCounts {
    pub minute: i64,
    pub hour: i64,
    pub day: i64,
}

/// How many shares may be created in a minute, an hour and a day.
#[derive(Debug, Clone, Copy, PartialEq, Eq, Structural)]
pub struct ShareLimits {
    pub per_minute: u32,
    pub per_hour: u32,
    pub per_day: u32,
}

/// The keys for a minute, an hour and a day.
pub fn keys_for(minute: &str, hour: &str, day: &str) -> (r: ShareKeys)
    ensures
        r.minute@ == "hidden:share:min:"@ + minute@,
        r.hour@ == "hidden:share:hour:"@ + hour@,
        r.day@ == "hidden:share:day:"@ + day@,
{
    ShareKeys {
        minute: cat("hidden:share:min:", minute),
        hour: cat("hidden:share:hour:", hour),
        day: cat("hidden:share:day:", day),
    }
}

/// The keys for a moment, given in seconds since the beginning of 1970. There are none where the
/// calendar does not reach.
pub fn share_keys(now: i64) -> (r: Option<ShareKeys>)
    ensures
        ({
            let minute = utc_text(now as int, MINUTE_PATTERN@);
            let hour = utc_text(now as int, HOUR_PATTERN@);
            let day = utc_text(now as int, DAY_PATTERN@);
            match r {
                Some(k) => {
                    &&& minute is Some && k.minute@ == "hidden:share:min:"@ + minute->0
                    &&& hour is Some && k.hour@ == "hidden:share:hour:"@ + hour->0
                    &&& day is Some && k.day@ == "hidden:share:day:"@ + day->0
                },
                None => minute is None || hour is None || day is None,
            }
        }),
{
    let minute = format_utc(now, MINUTE_PATTERN);
    let hour = format_utc(now, HOUR_PATTERN);
    let day = format_utc(now, DAY_PATTERN);
    match (minute, hour, day) {
        (Some(m), Some(h), Some(d)) => Some(keys_for(m.as_str(), h.as_str(), d.as_str())),
        _ => None,
    }
}

/// How many shares were created, as counters say. One that cannot be read counts as 0.
pub fn get_share_counts(minute: Option<i64>, hour: Option<i64>, day: Option<i64>) -> (r: ShareCounts)
    ensures
        r.minute == match minute {
            Some(n) => n,
            None => 0,
        },
        r.hour == match hour {
            Some(n) => n,
            None => 0,
        },
        r.day == match day {
            Some(n) => n,
            None => 0,
        },
{
    ShareCounts {
        minute: match minute {
            Some(n) => n,
            None => 0,
        },
        hour: match hour {
            Some(n) => n,
            None => 0,
        },
        day: match day {
            Some(n) => n,
            None => 0,
        },
    }
}

/// The limits that are configured.
pub fn share_limits(config: &Config) -> (r: ShareLimits)
    ensures
        r.per_minute == config.share_max_create_per_minute,
        r.per_hour == config.share_max_create_per_hour,
        r.per_day == config.share_max_create_per_day,
{
    ShareLimits {
        per_minute: config.share_max_create_per_minute,
        per_hour: config.share_max_create_per_hour,
        per_day: config.share_max_create_per_day,
    }
}

/// Whether one more share may be created: none of the limits is reached.
pub open spec fn allows(counts: ShareCounts, limits: ShareLimits) -> bool {
    counts.minute < limits.per_minute && counts.hour < limits.per_hour && counts.day
        < limits.per_day
}

/// Whether one more share may be created. Where the counts could not be asked for, it may.
pub fn check_share_rate(counts: Option<ShareCounts>, limits: ShareLimits) -> (r: bool)
    ensures
        r == match counts {
            Some(c) => allows(c, limits),
            None => true,
        },
{
    match counts {
        Some(c) => {
            c.minute < limits.per_minute as i64 && c.hour < limits.per_hour as i64 && c.day
                < limits.per_day as i64
        },
        None => true,
    }
}

/// A counter that goes up by one, and how many seconds it lives from then on.
#[derive(Debug)]
pub struct Increment {
    pub key: String,
    pub ttl_secs: i64,
}

/// What is counted when a share was created. Each counter outlives what it counts for.
pub fn record_share_created(keys: &ShareKeys) -> (r: Vec<Increment>)
    ensures
        r@.len() == 3,
        r@[0].key@ == keys.minute@ && r@[0].ttl_secs == 90,
        r@[1].key@ == keys.hour@ && r@[1].ttl_secs == 3660,
        r@[2].key@ == keys.day@ && r@[2].ttl_secs == 86460,
        r@[0].ttl_secs >= 60 && r@[1].ttl_secs >= 3600 && r@[2].ttl_secs >= 86400,
{
    let mut r: Vec<Increment> = Vec::new();
    r.push(Increment { key: keys.minute.clone(), ttl_secs: 90 });
    r.push(Increment { key: keys.hour.clone(), ttl_secs: 3660 });
    r.push(Increment { key: keys.day.clone(), ttl_secs: 86460 });
    r
}

// ---------------------------------------------------------------------------
// The interval
// ---------------------------------------------------------------------------

/// The key under which the moment of the last share stands, in milliseconds since the beginning of
/// 1970.
pub const LAST_SHARE_KEY: &'static str = "hidden:share:last";

/// How many milliseconds ago the last share was created, if one was. A moment that is still to come
/// counts as now.
pub fn since_last_share(last_ms: Option<i64>, now_ms: i64) -> (r: Option<u64>)
    ensures
        match last_ms {
            Some(last) => r is Some && r->0 == if now_ms >= last {
                now_ms - last
            } else {
                0
            },
            None => r is None,
        },
{
    match last_ms {
        Some(last) => if now_ms >= last {
            Some((now_ms as i128 - last as i128) as u64)
        } else {
            Some(0)
        },
        None => None,
    }
}

/// How many milliseconds of the least interval are left, when the last share was created
/// `since_last` milliseconds ago.
pub open spec fn interval_left(min_secs: int, since_last: Option<u64>) -> int {
    match since_last {
        Some(ms) => if ms < min_secs * 1000 {
            min_secs * 1000 - ms
        } else {
            0
        },
        None => 0,
    }
}

/// How many milliseconds to wait before the next share is created, so that it keeps the least
/// interval that is configured.
pub fn interval_wait(config: &Config, since_last: Option<u64>) -> (r: u128)
    ensures
        r == interval_left(config.share_min_interval_secs as int, since_last),
{
    let least: u128 = config.share_min_interval_secs as u128 * 1000;
    match since_last {
        Some(ms) => if (ms as u128) < least {
            least - ms as u128
        } else {
            0
        },
        None => 0,
    }
}

/// Whether a share may be created now: the rate allows it, and the least interval is over.
pub open spec fn may_share(config: Config, allowed: bool, since_last: Option<u64>) -> bool {
    allowed && interval_left(config.share_min_interval_secs as int, since_last) == 0
}

/// How long to wait at least where a share may not be created now: what is left of the least
/// interval, or all of it where the rate does not allow a share.
pub open spec fn least_pause(config: Config, allowed: bool, since_last: Option<u64>) -> int {
    if allowed {
        interval_left(config.share_min_interval_secs as int, since_last)
    } else {
        config.share_min_interval_secs * 1000
    }
}

/// After the wait, the least interval is over.
pub proof fn intervals_are_kept(min_secs: u64, last_ms: int, now_ms: int, next_ms: int)
    requires
        last_ms <= now_ms,
        now_ms - last_ms <= u64::MAX,
        next_ms >= now_ms + interval_left(min_secs as int, Some((now_ms - last_ms) as u64)),
    ensures
        next_ms - last_ms >= min_secs * 1000,
{
}

// ---------------------------------------------------------------------------
// Laws
// ---------------------------------------------------------------------------

/// A share that is allowed keeps within the limits: when it is counted, no count is over its limit.
/// And once shares are refused, they are refused with any higher counts.
pub proof fn allowed_shares_keep_within_limits(
    counts: ShareCounts,
    more: ShareCounts,
    limits: ShareLimits,
)
    requires
        counts.minute <= more.minute,
        counts.hour <= more.hour,
        counts.day <= more.day,
    ensures
        allows(counts, limits) ==> counts.minute + 1 <= limits.per_minute && counts.hour + 1
            <= limits.per_hour && counts.day + 1 <= limits.per_day,
        !allows(counts, limits) ==> !allows(more, limits),
{
}

/// The three counters never share a key, whatever the moments that they count for, and none of them
/// stands where the moment of the last share does.
pub proof fn counters_are_apart(minute: Seq<char>, hour: Seq<char>, day: Seq<char>)
    ensures
        "hidden:share:min:"@ + minute != "hidden:share:hour:"@ + hour,
        "hidden:share:min:"@ + minute != "hidden:share:day:"@ + day,
        "hidden:share:hour:"@ + hour != "hidden:share:day:"@ + day,
        "hidden:share:min:"@ + minute != LAST_SHARE_KEY@,
        "hidden:share:hour:"@ + hour != LAST_SHARE_KEY@,
        "hidden:share:day:"@ + day != LAST_SHARE_KEY@,
{
    reveal_strlit("hidden:share:last");
    assert(LAST_SHARE_KEY@[13] == 'l');
    reveal_strlit("hidden:share:min:");
    reveal_strlit("hidden:share:hour:");
    reveal_strlit("hidden:share:day:");
    assert(("hidden:share:min:"@ + minute)[13] == 'm');
    assert(("hidden:share:hour:"@ + hour)[13] == 'h');
    assert(("hidden:share:day:"@ + day)[13] == 'd');
}

} // verus!
