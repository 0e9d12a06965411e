//! The state of the server.

use vstd::prelude::*;

use crate::adapters::adapter_115::QuotaInfo;
use crate::error::AppError;

verus! {

/// The level that the log is to have from now on.
#[derive(Debug)]
pub struct SetLogLevelBody {
    pub level: String,
}

/// The level that the log has from now on, given whether it could be set, or why not.
pub fn set_log_level(body: SetLogLevelBody, outcome: Result<(), String>) -> (r: Result<
    String,
    AppError,
>)
    ensures
        match outcome {
            Ok(_) => r == Ok::<String, AppError>(body.level),
            Err(reason) => r == Err::<String, AppError>(AppError::BadRequest(reason)),
        },
{
    match outcome {
        Ok(_) => Ok(body.level),
        Err(reason) => Err(AppError::BadRequest(reason)),
    }
}

/// How many resources, shares and tasks are stored.
#[derive(Debug, Clone, Copy, PartialEq, Eq, Structural)]
pub struct StoredCounts {
    pub resources: i64,
    pub shares: i64,
    pub active_shares: i64,
    pub tasks: i64,
    pub pending_tasks: i64,
    pub failed_tasks: i64,
}

/// What is told of the server.
#[derive(Debug)]
pub struct Stats {
    pub resources: i64,
    pub shares_total: i64,
    pub shares_active: i64,
    pub shares_inactive: i64,
    pub tasks_total: i64,
    pub tasks_pending: i64,
    pub tasks_failed: i64,
    pub quota: Option<QuotaInfo>,
}

/// What is told of the server. Without the space of the account, the rest is told.
pub fn get_stats(counts: &StoredCounts, quota: Option<QuotaInfo>) -> (r: Stats)
    requires
        counts.shares >= 0,
        counts.active_shares >= 0,
    ensures
        r.resources == counts.resources,
        r.shares_total == counts.shares,
        r.shares_active == counts.active_shares,
        r.shares_active + r.shares_inactive == r.shares_total,
        r.tasks_total == counts.tasks,
        r.tasks_pending == counts.pending_tasks,
        r.tasks_failed == counts.failed_tasks,
        r.quota == quota,
{
    Stats {
        resources: counts.resources,
        shares_total: counts.shares,
        shares_active: counts.active_shares,
        shares_inactive: counts.shares - counts.active_shares,
        tasks_total: counts.tasks,
        tasks_pending: counts.pending_tasks,
        tasks_failed: counts.failed_tasks,
        quota,
    }
}

} // verus!
