//! Share links.

use vstd::prelude::*;

use crate::adapters::adapter_115::ShareResult;
#[allow(unused_imports)]
use crate::api::paging::{page_window, window_of, PageWindow};
#[allow(unused_imports)]
use crate::db::models::{Share, ShareStatus};
use crate::error::AppError;
#[allow(unused_imports)]
use crate::share_link::{share_id, share_id_of};
#[allow(unused_imports)]
use crate::text::number::{decimal_i64, decimal_int};
#[allow(unused_imports)]
use crate::text::{cat, cat3, option_view, same};
use crate::workers::schedule::status_after_check;
#[allow(unused_imports)]
use crate::workers::schedule::checked_status;

verus! {

/// Which shares are asked for.
#[derive(Debug)]
pub struct ListSharesQuery {
    pub status: Option<String>,
    pub skip: i64,
    pub limit: i64,
}

/// The part of the list of shares that is asked for.
pub fn list_shares(q: &ListSharesQuery) -> (r: PageWindow)
    ensures
        r == window_of(q.skip, q.limit),
{
    page_window(q.skip, q.limit)
}

/// There is no such share.
pub open spec fn is_missing(e: AppError, id: i64) -> bool {
    &&& e is NotFound
    &&& e->NotFound_0@ == "分享 #"@ + decimal_int(id as int) + " 不存在"@
}

/// There is no such share.
fn missing(id: i64) -> (r: AppError)
    ensures
        is_missing(r, id),
{
    AppError::NotFound(cat3("分享 #", decimal_i64(id).as_str(), " 不存在"))
}

/// A share that was asked for.
pub fn get_share(share: Option<Share>, id: i64) -> (r: Result<Share, AppError>)
    ensures
        match r {
            Ok(s) => share == Some(s),
            Err(e) => share is None && is_missing(e, id),
        },
{
    match share {
        Some(s) => Ok(s),
        None => Err(missing(id)),
    }
}

/// The share that a link names, or why it names none.
pub fn extract_share_id_from_url(url: &str) -> (r: Result<String, AppError>)
    ensures
        match r {
            Ok(id) => share_id_of(url@) == Some(id@),
            Err(AppError::BadRequest(m)) => share_id_of(url@) is None && m@
                == "无法从 URL 提取分享 ID："@ + url@,
            Err(_) => false,
        },
{
    match share_id(url) {
        Some(id) => Ok(id),
        None => Err(AppError::BadRequest(cat("无法从 URL 提取分享 ID：", url))),
    }
}

/// The code of a share: the one that is stored, or else the one in its link.
pub open spec fn code_of(share: Share) -> Option<Seq<char>> {
    match share.share_code {
        Some(code) => Some(code@),
        None => share_id_of(share.share_url@),
    }
}

/// The code of a share, if it has one.
pub fn share_code(share: &Share) -> (r: Option<String>)
    ensures
        option_view(r) == code_of(*share),
{
    match &share.share_code {
        Some(code) => Some(code.clone()),
        None => share_id(share.share_url.as_str()),
    }
}

// ---------------------------------------------------------------------------
// Checking
// ---------------------------------------------------------------------------

/// The code of the share that is to be checked.
pub fn check_share(share: Option<&Share>, id: i64) -> (r: Result<String, AppError>)
    ensures
        match r {
            Ok(code) => share is Some && code_of(*share->0) == Some(code@),
            Err(e) => match share {
                Some(s) => {
                    &&& code_of(*s) is None
                    &&& e is BadRequest
                    &&& e->BadRequest_0@ == "无法从 URL 提取分享 ID："@ + s.share_url@
                },
                None => is_missing(e, id),
            },
        },
{
    match share {
        Some(s) => match &s.share_code {
            Some(code) => Ok(code.clone()),
            None => extract_share_id_from_url(s.share_url.as_str()),
        },
        None => Err(missing(id)),
    }
}

/// What was found out about a share.
#[derive(Debug)]
pub struct CheckReport {
    pub share_id: i64,
    pub share_url: String,
    pub previous_status: String,
    pub status: ShareStatus,
    pub alive: bool,
}

/// What was found out about a share, given whether it could be read.
pub fn checked(share: Share, read: Option<bool>) -> (r: CheckReport)
    ensures
        r.share_id == share.id,
        r.share_url == share.share_url,
        r.previous_status == share.status,
        r.status == checked_status(read),
        r.alive == (checked_status(read) == ShareStatus::Active),
{
    let status = status_after_check(read);
    CheckReport {
        share_id: share.id,
        share_url: share.share_url,
        previous_status: share.status,
        status,
        alive: status == ShareStatus::Active,
    }
}

// ---------------------------------------------------------------------------
// Rebuilding
// ---------------------------------------------------------------------------

/// The resource whose share is to be created anew: only that of a share that cannot be used, and
/// belongs to a resource.
pub fn rebuild_share(share: Option<&Share>, id: i64) -> (r: Result<i64, AppError>)
    ensures
        match r {
            Ok(resource) => {
                &&& share is Some
                &&& share->0.status@ != ShareStatus::Active.name()
                &&& share->0.resource_id == Some(resource)
            },
            Err(e) => match share {
                Some(s) => if s.status@ == ShareStatus::Active.name() {
                    &&& e is BadRequest
                    &&& e->BadRequest_0@ == "分享链接仍然有效，无需重建"@
                } else {
                    &&& s.resource_id is None
                    &&& e is BadRequest
                    &&& e->BadRequest_0@
                        == "分享未关联资源，无法自动重建（请重新提交导入任务）"@
                },
                None => is_missing(e, id),
            },
        },
{
    match share {
        Some(s) => {
            if same(s.status.as_str(), ShareStatus::Active.as_str()) {
                return Err(AppError::BadRequest("分享链接仍然有效，无需重建".to_string()));
            }
            match s.resource_id {
                Some(resource) => Ok(resource),
                None => Err(
                    AppError::BadRequest(
                        "分享未关联资源，无法自动重建（请重新提交导入任务）".to_string(),
                    ),
                ),
            }
        },
        None => Err(missing(id)),
    }
}

/// Whether a share of files is created now: there are files, and the rate allows it.
pub fn rebuild_allowed(cloud_ids: &[String], rate_allows: bool) -> (r: Result<(), AppError>)
    ensures
        match r {
            Ok(_) => cloud_ids@.len() > 0 && rate_allows,
            Err(e) => if cloud_ids@.len() == 0 {
                &&& e is BadRequest
                &&& e->BadRequest_0@ == "关联资源没有云盘文件记录，无法重建分享"@
            } else {
                !rate_allows && e is RateLimited
            },
        },
{
    if cloud_ids.len() == 0 {
        return Err(
            AppError::BadRequest("关联资源没有云盘文件记录，无法重建分享".to_string()),
        );
    }
    if !rate_allows {
        return Err(AppError::RateLimited);
    }
    Ok(())
}

/// What changes of a share that was created anew.
#[derive(Debug)]
pub struct ShareUpdate {
    pub share_url: String,
    pub pick_code: String,
    pub share_code: String,
    pub status: ShareStatus,
}

/// What changes of a share that was created anew, or why it could not be.
pub fn rebuilt(outcome: Result<ShareResult, String>) -> (r: Result<ShareUpdate, AppError>)
    ensures
        match outcome {
            Ok(share) => {
                &&& r is Ok
                &&& r->Ok_0.share_url == share.share_url
                &&& r->Ok_0.pick_code == share.pick_code
                &&& r->Ok_0.share_code == share.share_id
                &&& r->Ok_0.status == ShareStatus::Active
            },
            Err(reason) => r is Err && r->Err_0 == AppError::Api115(reason),
        },
{
    match outcome {
        Ok(share) => Ok(
            ShareUpdate {
                share_url: share.share_url,
                pick_code: share.pick_code,
                share_code: share.share_id,
                status: ShareStatus::Active,
            },
        ),
        Err(reason) => Err(AppError::Api115(reason)),
    }
}

// ---------------------------------------------------------------------------
// Deleting
// ---------------------------------------------------------------------------

/// The code of the share that is cancelled before it is deleted. One without a code is deleted as it
/// is.
pub fn delete_share(share: Option<&Share>, id: i64) -> (r: Result<Option<String>, AppError>)
    ensures
        match r {
            Ok(code) => share is Some && option_view(code) == code_of(*share->0),
            Err(e) => share is None && is_missing(e, id),
        },
{
    match share {
        Some(s) => Ok(share_code(s)),
        None => Err(missing(id)),
    }
}

/// A check leaves a share that could be read as one that is not created anew, and any other as one
/// that may be.
pub proof fn checks_decide_about_rebuilding(read: Option<bool>)
    ensures
        checked_status(read).name() == ShareStatus::Active.name() <==> read == Some(true),
{
    crate::db::models::share_status_names_differ(ShareStatus::Active, ShareStatus::Inactive);
}

} // verus!
