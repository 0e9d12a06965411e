//! What is done again and again: checking shares, checking the space, cleaning up.

use vstd::prelude::*;

#[allow(unused_imports)]
use crate::adapters::adapter_115::{entries_view, FileEntry, FileEntryView, QuotaInfo};
use crate::config::Config;
#[allow(unused_imports)]
use crate::db::models::{ShareStatus, TaskStatus};
use crate::services::organizer::names_folder;
#[allow(unused_imports)]
use crate::services::organizer::is_folder;
#[allow(unused_imports)]
use crate::text::{begins_with, same, starts_with};
use crate::workers::import_plan::temp_folder;
#[allow(unused_imports)]
use crate::workers::import_plan::temp_folder_name;

verus! {

/// Shares are checked every hour.
pub const SHARE_CHECK_SCHEDULE: &'static str = "0 0 * * * *";

/// The space is checked every half hour.
pub const QUOTA_CHECK_SCHEDULE: &'static str = "0 */30 * * * *";

/// Temporary folders are cleaned up every day at three o'clock.
pub const CLEANUP_SCHEDULE: &'static str = "0 0 3 * * *";

// ---------------------------------------------------------------------------
// Shares
// ---------------------------------------------------------------------------

/// The status of a share that was checked: it is active if it could be read. Nothing is read where
/// the link names no share, or where the check failed.
pub open spec fn checked_status(read: Option<bool>) -> ShareStatus {
    if read == Some(true) {
        ShareStatus::Active
    } else {
        ShareStatus::Inactive
    }
}

/// The status of a share that was checked.
pub fn status_after_check(read: Option<bool>) -> (r: ShareStatus)
    ensures
        r == checked_status(read),
{
    match read {
        Some(true) => ShareStatus::Active,
        _ => ShareStatus::Inactive,
    }
}

// ---------------------------------------------------------------------------
// Space
// ---------------------------------------------------------------------------

/// The quotient of `a` and a positive `b`, rounded towards 0.
pub open spec fn quotient(a: int, b: int) -> int {
    if a >= 0 {
        a / b
    } else {
        -((-a) / b)
    }
}

/// What is told of the space of an account.
#[derive(Debug, Clone, Copy, PartialEq, Eq, Structural)]
pub struct QuotaReport {
    pub free_gb: i128,
    pub used_percent: i128,
    pub is_short: bool,
}

/// The part of the space that is used, in percent; 0 where the space is not known.
pub open spec fn used_percent_of(quota: QuotaInfo) -> int {
    if quota.total > 0 {
        quotient(quota.used * 100, quota.total as int)
    } else {
        0
    }
}

/// The quotient of `a` and a positive `b`, rounded towards 0.
fn divide(a: i128, b: u64) -> (r: i128)
    requires
        -(0x1_0000_0000_0000_0000_0000) <= a <= 0x1_0000_0000_0000_0000_0000,
        b > 0,
    ensures
        r == quotient(a as int, b as int),
{
    if a >= 0 {
        let q: u128 = a as u128 / b as u128;
        assert(q <= a) by (nonlinear_arith)
            requires
                a >= 0,
                b > 0,
                q == a as u128 / b as u128,
        ;
        q as i128
    } else {
        let n: u128 = (-a) as u128;
        let q: u128 = n / b as u128;
        assert(q <= n) by (nonlinear_arith)
            requires
                b > 0,
                q == n / b as u128,
        ;
        -(q as i128)
    }
}

/// What is told of the space of an account: it is short when nine tenths or more are used.
pub fn run_quota_check(quota: &QuotaInfo) -> (r: QuotaReport)
    ensures
        r.free_gb == quotient(quota.free as int, 0x4000_0000),
        r.used_percent == used_percent_of(*quota),
        r.is_short == (used_percent_of(*quota) >= 90),
{
    let free_gb: i128 = divide(quota.free as i128, 0x4000_0000);
    let used_percent: i128 = if quota.total > 0 {
        divide(quota.used as i128 * 100, quota.total as u64)
    } else {
        0
    };
    QuotaReport { free_gb, used_percent, is_short: used_percent >= 90 }
}

// ---------------------------------------------------------------------------
// Temporary folders
// ---------------------------------------------------------------------------

/// How many entries a temporary folder may still have when it is deleted, and one more.
pub const MAX_LEFTOVERS: usize = 5;

/// Whether the folder of a task may go: the task is over.
pub open spec fn is_over(status: TaskStatus) -> bool {
    status == TaskStatus::Completed || status == TaskStatus::Failed || status
        == TaskStatus::Skipped
}

/// The statuses of tasks whose folders may go.
pub fn finished_statuses() -> (r: Vec<TaskStatus>)
    ensures
        r@ == seq![TaskStatus::Completed, TaskStatus::Failed, TaskStatus::Skipped],
        forall|s: TaskStatus| r@.contains(s) <==> is_over(s),
{
    let mut r: Vec<TaskStatus> = Vec::new();
    r.push(TaskStatus::Completed);
    r.push(TaskStatus::Failed);
    r.push(TaskStatus::Skipped);
    assert(r@[0] == TaskStatus::Completed && r@[1] == TaskStatus::Failed && r@[2]
        == TaskStatus::Skipped);
    r
}

/// The folder to be cleaned up, if one is configured.
pub fn cleanup_root(config: &Config) -> (r: Option<String>)
    ensures
        match r {
            Some(id) => is_folder(config.account_115_temp_folder_id@) && id@
                == config.account_115_temp_folder_id@,
            None => !is_folder(config.account_115_temp_folder_id@),
        },
{
    if names_folder(config.account_115_temp_folder_id.as_str()) {
        Some(config.account_115_temp_folder_id.clone())
    } else {
        None
    }
}

/// A folder that may be deleted.
#[derive(Debug)]
pub struct Leftover {
    pub folder_id: String,
    pub name: String,
}

/// Whether an entry is the folder of one of the tasks that are over.
pub open spec fn is_leftover(entry: FileEntryView, finished: Seq<i64>) -> bool {
    &&& entry.is_dir
    &&& begins_with(entry.name, "hidden-task-"@)
    &&& entry.file_id is Some
    &&& exists|i: int|
        0 <= i < finished.len() && entry.name == temp_folder_name(#[trigger] finished[i])
}

/// The folders that may be deleted, in their order.
pub open spec fn leftovers_of(entries: Seq<FileEntryView>, finished: Seq<i64>) -> Seq<
    (Seq<char>, Seq<char>),
>
    decreases entries.len(),
{
    if entries.len() == 0 {
        Seq::empty()
    } else if is_leftover(entries.last(), finished) {
        leftovers_of(entries.drop_last(), finished).push(
            (entries.last().file_id->0, entries.last().name),
        )
    } else {
        leftovers_of(entries.drop_last(), finished)
    }
}

/// Folders over sequences of characters.
pub open spec fn leftovers_view(leftovers: Seq<Leftover>) -> Seq<(Seq<char>, Seq<char>)> {
    leftovers.map_values(|l: Leftover| (l.folder_id@, l.name@))
}

/// Whether a name is that of the folder of one of the tasks.
fn names_task(name: &str, finished: &[i64]) -> (r: bool)
    ensures
        r == exists|i: int|
            0 <= i < finished@.len() && name@ == temp_folder_name(#[trigger] finished@[i]),
{
    let mut i: usize = 0;
    while i < finished.len()
        invariant
            i <= finished@.len(),
            forall|j: int| 0 <= j < i ==> name@ != temp_folder_name(#[trigger] finished@[j]),
        decreases finished@.len() - i,
    {
        if same(name, temp_folder(finished[i]).as_str()) {
            assert(name@ == temp_folder_name(finished@[i as int]));
            return true;
        }
        i = i + 1;
    }
    false
}

/// The folders that may be deleted: those of tasks that are over.
pub fn run_temp_cleanup(entries: &[FileEntry], finished: &[i64]) -> (r: Vec<Leftover>)
    ensures
        leftovers_view(r@) == leftovers_of(entries_view(entries@), finished@),
{
    let mut out: Vec<Leftover> = Vec::new();
    let ghost all = entries_view(entries@);
    let mut i: usize = 0;
    assert(leftovers_view(out@) =~= leftovers_of(all.take(0), finished@));
    while i < entries.len()
        invariant
            i <= entries@.len(),
            all == entries_view(entries@),
            leftovers_view(out@) == leftovers_of(all.take(i as int), finished@),
        decreases entries@.len() - i,
    {
        assert(all.take(i + 1).drop_last() =~= all.take(i as int));
        assert(all.take(i + 1).last() == entries@[i as int]@);
        let entry = &entries[i];
        if entry.is_dir && starts_with(entry.name.as_str(), "hidden-task-") && names_task(
            entry.name.as_str(),
            finished,
        ) {
            match &entry.file_id {
                Some(id) => {
                    let ghost before = out@;
                    out.push(Leftover { folder_id: id.clone(), name: entry.name.clone() });
                    assert(leftovers_view(out@) =~= leftovers_view(before).push(
                        (id@, entry.name@),
                    ));
                },
                None => {},
            }
        }
        i = i + 1;
    }
    assert(all.take(i as int) =~= all);
    out
}

/// Whether a folder that may be deleted is, by how many entries were found in it: fewer than five.
/// One that could not be listed stays.
pub fn is_nearly_empty(children: Option<usize>) -> (r: bool)
    ensures
        r == match children {
            Some(n) => n < 5,
            None => false,
        },
{
    match children {
        Some(n) => n < MAX_LEFTOVERS,
        None => false,
    }
}

/// Nothing is cleaned up but folders of tasks that are over.
pub proof fn only_finished_tasks_are_cleaned_up(
    entries: Seq<FileEntryView>,
    finished: Seq<i64>,
    i: int,
) -> (r: (int, int))
    requires
        0 <= i < leftovers_of(entries, finished).len(),
    ensures
        0 <= r.0 < entries.len(),
        entries[r.0].is_dir,
        entries[r.0].file_id == Some(leftovers_of(entries, finished)[i].0),
        0 <= r.1 < finished.len(),
        entries[r.0].name == temp_folder_name(finished[r.1]),
    decreases entries.len(),
{
    let before = leftovers_of(entries.drop_last(), finished);
    if i < before.len() {
        let (k, t) = only_finished_tasks_are_cleaned_up(entries.drop_last(), finished, i);
        assert(entries.drop_last()[k] == entries[k]);
        assert(leftovers_of(entries, finished)[i] == before[i]);
        (k, t)
    } else {
        let t = choose|t: int|
            0 <= t < finished.len() && entries.last().name == temp_folder_name(
                #[trigger] finished[t],
            );
        (entries.len() - 1, t)
    }
}

} // verus!
