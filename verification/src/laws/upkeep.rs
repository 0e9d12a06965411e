//! Laws of what is limited, waited for and tidied up over time.

use vstd::prelude::*;

#[allow(unused_imports)]
use crate::adapters::adapter_115::{FileEntryView, QuotaInfo};
#[allow(unused_imports)]
use crate::chance::{is_pause, pause_for, share_pause};
#[allow(unused_imports)]
use crate::clock::utc_text;
#[allow(unused_imports)]
use crate::config::Config;
#[allow(unused_imports)]
use crate::db::models::{ShareStatus, TaskStatus};
#[allow(unused_imports)]
use crate::services::share_limiter::{
    allows, check_share_rate, get_share_counts, interval_left, interval_wait, keys_for, least_pause,
    may_share, record_share_created, share_keys, share_limits, since_last_share, Increment,
    ShareCounts, ShareKeys, ShareLimits,
};
#[allow(unused_imports)]
use crate::startup::{is_pong, tries_again};
#[allow(unused_imports)]
use crate::text::ascii_lower;
#[allow(unused_imports)]
use crate::workers::import_plan::temp_folder_name;
#[allow(unused_imports)]
use crate::workers::schedule::{
    cleanup_root, is_nearly_empty, is_over, leftovers_of, quotient, run_quota_check,
    status_after_check, QuotaReport, CLEANUP_SCHEDULE, QUOTA_CHECK_SCHEDULE, SHARE_CHECK_SCHEDULE,
};

verus! {

/// A share is allowed exactly if none of the three limits is reached: neither that of the minute
/// nor that of the hour nor that of the day. Where nothing can be counted it is allowed.
pub proof fn each_limit_stops_shares(
    counts: ShareCounts,
    limits: ShareLimits,
    counted: bool,
    uncounted: bool,
)
    requires
        call_ensures(check_share_rate, (Some(counts), limits), counted),
        call_ensures(check_share_rate, (None, limits), uncounted),
    ensures
        counted <==> !(counts.minute >= limits.per_minute) && !(counts.hour >= limits.per_hour) && !(
        counts.day >= limits.per_day),
        counted <==> allows(counts, limits),
        uncounted,
{
}

/// The limits are those of the configuration, each for its time.
pub proof fn limits_are_configured(config: &Config, r: ShareLimits)
    requires
        call_ensures(share_limits, (config,), r),
    ensures
        r.per_minute == config.share_max_create_per_minute,
        r.per_hour == config.share_max_create_per_hour,
        r.per_day == config.share_max_create_per_day,
{
}

/// What was not counted yet counts for nothing.
pub proof fn counts_begin_at_zero(
    minute: Option<i64>,
    hour: Option<i64>,
    day: Option<i64>,
    r: ShareCounts,
)
    requires
        call_ensures(get_share_counts, (minute, hour, day), r),
    ensures
        minute matches Some(n) ==> r.minute == n,
        minute is None ==> r.minute == 0,
        hour matches Some(n) ==> r.hour == n,
        hour is None ==> r.hour == 0,
        day matches Some(n) ==> r.day == n,
        day is None ==> r.day == 0,
{
}

/// A share that was made is counted in its minute, its hour and its day, each once, and each count
/// is kept longer than the time that it is for.
pub proof fn made_shares_are_counted(
    minute: &str,
    hour: &str,
    day: &str,
    keys: ShareKeys,
    r: Vec<Increment>,
)
    requires
        call_ensures(keys_for, (minute, hour, day), keys),
        call_ensures(record_share_created, (&keys,), r),
    ensures
        r@.len() == 3,
        r@[0].key@ == "hidden:share:min:"@ + minute@ && r@[0].ttl_secs == 90,
        r@[1].key@ == "hidden:share:hour:"@ + hour@ && r@[1].ttl_secs == 3660,
        r@[2].key@ == "hidden:share:day:"@ + day@ && r@[2].ttl_secs == 86460,
        r@[0].ttl_secs > 60 && r@[1].ttl_secs > 60 * 60 && r@[2].ttl_secs > 24 * 60 * 60,
{
}

/// Between two shares as much time passes as the configuration asks for, and not more is waited than
/// is left of it: nothing once it has passed, nothing where no share was made before.
pub proof fn shares_keep_their_distance(secs: u64, since: u64)
    ensures
        since + interval_left(secs as int, Some(since)) >= secs * 1000,
        interval_left(secs as int, Some(since)) > 0 ==> since + interval_left(
            secs as int,
            Some(since),
        ) == secs * 1000,
        since >= secs * 1000 ==> interval_left(secs as int, Some(since)) == 0,
        interval_left(secs as int, None) == 0,
{
}

/// The time since the last share is what lies between it and now; a share that is later than now was
/// just made.
pub proof fn time_passes_since_the_last_share(last: Option<i64>, now: i64, r: Option<u64>)
    requires
        call_ensures(since_last_share, (last, now), r),
    ensures
        last is None <==> r is None,
        last matches Some(t) ==> t <= now ==> r == Some((now - t) as u64),
        last matches Some(t) ==> t > now ==> r == Some(0u64),
{
}

/// A share may be made exactly if the rate allows it and the interval has passed; until then at least
/// what is left of the interval is waited, and a whole one where the rate does not allow it.
pub proof fn shares_wait_until_they_may_be_made(config: Config, allowed: bool, since: Option<u64>)
    ensures
        may_share(config, allowed, since) <==> allowed && (since matches Some(ms) ==> ms
            >= config.share_min_interval_secs * 1000),
        !allowed ==> least_pause(config, allowed, since) == config.share_min_interval_secs * 1000,
        allowed ==> (since matches Some(ms) ==> ms + least_pause(config, allowed, since)
            >= config.share_min_interval_secs * 1000),
        allowed && may_share(config, allowed, since) ==> least_pause(config, allowed, since) == 0,
{
}

/// A pause is never shorter than the least one, and longer by no more than the jitter; every length
/// between is drawn by a number of its own.
pub proof fn pauses_keep_within_the_jitter(least: u128, jitter: u64, drawn: u64, r: u128)
    requires
        call_ensures(pause_for, (least, jitter, drawn), r),
    ensures
        least <= r <= least + jitter * 1000,
        drawn <= jitter * 1000 ==> r == least + drawn,
        jitter == 0 ==> r == least,
        forall|p: int, l: int, j: int|
            #[trigger] is_pause(p, l, j) <==> p >= l && p - l <= j * 1000,
{
    if drawn <= jitter * 1000 {
        assert(drawn as int % (jitter * 1000 + 1) == drawn) by (nonlinear_arith)
            requires
                0 <= drawn <= jitter * 1000,
        ;
    }
    if jitter == 0 {
        assert(drawn as int % 1 == 0);
    }
}

/// Before a share as much is waited as the configuration asks for, and at most its jitter longer.
pub proof fn shares_are_paused_for(config: &Config, r: u128)
    requires
        call_ensures(share_pause, (config,), r),
    ensures
        r >= config.share_min_interval_secs * 1000,
        r <= config.share_min_interval_secs * 1000 + config.share_random_jitter_secs * 1000,
{
}

/// How full the drive is: the used part of the total in hundredths, rounded down, and zero where the
/// total is not known. It is short of space from ninety hundredths on. The free space is told in
/// gigabytes of 1073741824 bytes.
pub proof fn the_quota_is_told_in_hundredths(quota: &QuotaInfo, r: QuotaReport)
    requires
        call_ensures(run_quota_check, (quota,), r),
    ensures
        quota.total <= 0 ==> r.used_percent == 0 && !r.is_short,
        quota.total > 0 && quota.used >= 0 ==> {
            &&& r.used_percent * quota.total <= quota.used * 100
            &&& quota.used * 100 < (r.used_percent + 1) * quota.total
            &&& r.is_short <==> quota.used * 100 >= 90 * quota.total
        },
        quota.free >= 0 ==> r.free_gb * 1073741824 <= quota.free < (r.free_gb + 1) * 1073741824,
{
    if quota.total > 0 && quota.used >= 0 {
        let a = quota.used * 100;
        let b = quota.total as int;
        let q = a / b;
        vstd::arithmetic::div_mod::lemma_fundamental_div_mod(a, b);
        vstd::arithmetic::div_mod::lemma_mod_bound(a, b);
        assert(b * q == q * b) by (nonlinear_arith);
        assert((q + 1) * b == q * b + b) by (nonlinear_arith);
        if q >= 90 {
            assert(q * b >= 90 * b) by (nonlinear_arith)
                requires
                    q >= 90,
                    b > 0,
            ;
        } else {
            assert((q + 1) * b <= 90 * b) by (nonlinear_arith)
                requires
                    q < 90,
                    b > 0,
            ;
        }
    }
}

/// What is left over of tasks is found among the entries one by one, in their order: each folder
/// that is called as that of a finished task, with its identifier and name; nothing else.
pub proof fn leftovers_are_folders_of_finished_tasks(
    entries: Seq<FileEntryView>,
    entry: FileEntryView,
    finished: Seq<i64>,
    k: int,
)
    ensures
        leftovers_of(Seq::empty(), finished).len() == 0,
        0 <= k < finished.len() && entry.name == temp_folder_name(finished[k]) && entry.is_dir ==> (
        entry.file_id matches Some(id) ==> leftovers_of(entries.push(entry), finished)
            == leftovers_of(entries, finished).push((id, entry.name))),
        !entry.is_dir || entry.file_id is None || (forall|i: int|
            0 <= i < finished.len() ==> entry.name != temp_folder_name(#[trigger] finished[i]))
            ==> leftovers_of(entries.push(entry), finished) == leftovers_of(entries, finished),
{
    let all = entries.push(entry);
    assert(all.drop_last() =~= entries);
    assert(all.last() == entry);
    if 0 <= k < finished.len() && entry.name == temp_folder_name(finished[k]) {
        crate::laws::records::tasks_have_folders_of_their_own(finished[k], finished[k]);
    }
}

/// A task is over once it is completed, failed or skipped; a folder is nearly empty that holds less
/// than five entries, and one that could not be listed is not.
pub proof fn tasks_are_over_in_three_states(
    status: TaskStatus,
    children: Option<usize>,
    empty: bool,
)
    requires
        call_ensures(is_nearly_empty, (children,), empty),
    ensures
        is_over(status) <==> status is Completed || status is Failed || status is Skipped,
        empty <==> (children matches Some(n) && n < 5),
{
}

/// Leftovers are looked for in the folder for temporary files, and nowhere where none is named.
pub proof fn leftovers_are_looked_for_in_one_folder(config: &Config, r: Option<String>)
    requires
        call_ensures(cleanup_root, (config,), r),
    ensures
        r is None <==> config.account_115_temp_folder_id@.len() == 0
            || config.account_115_temp_folder_id@ == seq!['0'],
        r matches Some(id) ==> id@ == config.account_115_temp_folder_id@,
{
    reveal_strlit("0");
    assert("0"@ =~= seq!['0']);
}

/// A connection is tried ten times.
pub proof fn connections_are_tried_ten_times(attempts: u32, r: bool)
    requires
        call_ensures(tries_again, (attempts,), r),
    ensures
        r <==> attempts < 10,
{
}

/// A share is counted under the minute, the hour and the day of the calendar that it is made in;
/// where the calendar does not reach it cannot be counted.
pub proof fn shares_are_counted_by_the_calendar(now: i64, r: Option<ShareKeys>)
    requires
        call_ensures(share_keys, (now,), r),
    ensures
        r matches Some(k) ==> {
            &&& utc_text(now as int, "%Y%m%d%H%M"@) matches Some(t) && k.minute@
                == "hidden:share:min:"@ + t
            &&& utc_text(now as int, "%Y%m%d%H"@) matches Some(t) && k.hour@ == "hidden:share:hour:"@
                + t
            &&& utc_text(now as int, "%Y%m%d"@) matches Some(t) && k.day@ == "hidden:share:day:"@ + t
        },
        r is None ==> utc_text(now as int, "%Y%m%d%H%M"@) is None || utc_text(
            now as int,
            "%Y%m%d%H"@,
        ) is None || utc_text(now as int, "%Y%m%d"@) is None,
{
}

/// What is left of the interval between two shares is what is waited for.
pub proof fn intervals_are_waited_for(config: &Config, since: Option<u64>, r: u128)
    requires
        call_ensures(interval_wait, (config, since), r),
    ensures
        r == interval_left(config.share_min_interval_secs as int, since),
        since is None ==> r == 0,
        since matches Some(ms) ==> ms + r >= config.share_min_interval_secs * 1000,
{
}

/// The store lives if it answers with four letters, in whichever case.
pub proof fn the_store_answers_with_four_letters(reply: &str, r: bool)
    requires
        call_ensures(is_pong, (reply,), r),
    ensures
        r ==> reply@.len() == 4,
        reply@ == seq!['P', 'O', 'N', 'G'] || reply@ == seq!['p', 'o', 'n', 'g'] ==> r,
        r ==> (reply@[0] == 'P' || reply@[0] == 'p') && (reply@[1] == 'O' || reply@[1] == 'o') && (
        reply@[2] == 'N' || reply@[2] == 'n') && (reply@[3] == 'G' || reply@[3] == 'g'),
{
    reveal_strlit("PONG");
    let p = "PONG"@;
    assert(p[0] == 'P' && p[1] == 'O' && p[2] == 'N' && p[3] == 'G');
    if r {
        assert(ascii_lower(reply@[0]) == ascii_lower(p[0]));
        assert(ascii_lower(reply@[1]) == ascii_lower(p[1]));
        assert(ascii_lower(reply@[2]) == ascii_lower(p[2]));
        assert(ascii_lower(reply@[3]) == ascii_lower(p[3]));
    }
}

/// What is looked at over time is looked at when it is due: the shares every hour, the quota every
/// half an hour, the leftovers at three in the night.
pub proof fn work_is_due_by_the_clock()
    ensures
        SHARE_CHECK_SCHEDULE@ == "0 0 * * * *"@,
        QUOTA_CHECK_SCHEDULE@ == "0 */30 * * * *"@,
        CLEANUP_SCHEDULE@ == "0 0 3 * * *"@,
{
}

/// A share that was read lives; any other does not.
pub proof fn shares_live_after_a_check(read: Option<bool>, r: ShareStatus)
    requires
        call_ensures(status_after_check, (read,), r),
    ensures
        r is Active <==> read == Some(true),
        r is Inactive <==> read != Some(true),
{
}

/// What is below zero is rounded as what is above it is: towards zero.
pub proof fn quotients_are_rounded_towards_zero(a: int, b: int)
    requires
        b > 0,
    ensures
        quotient(-a, b) == -quotient(a, b),
        a >= 0 ==> quotient(a, b) * b <= a < (quotient(a, b) + 1) * b,
{
    let n = if a >= 0 {
        a
    } else {
        -a
    };
    let q = n / b;
    vstd::arithmetic::div_mod::lemma_fundamental_div_mod(n, b);
    vstd::arithmetic::div_mod::lemma_mod_bound(n, b);
    assert(b * q == q * b) by (nonlinear_arith);
    assert((q + 1) * b == q * b + b) by (nonlinear_arith);
    if a == 0 {
        assert(0int / b == 0) by (nonlinear_arith)
            requires
                b > 0,
        ;
    }
}

} // verus!
