//! Laws of what the service answers.

use vstd::prelude::*;

#[allow(unused_imports)]
use crate::adapters::adapter_115::{FileEntryView, QuotaInfo, ShareResult};
#[allow(unused_imports)]
use crate::api::health::{get_stats, Stats, StoredCounts};
#[allow(unused_imports)]
use crate::api::paging::{default_limit, window_of, PageWindow};
#[allow(unused_imports)]
use crate::api::resources::{
    codes_of, default_folder_cid, default_popular_limit, delete_resource, deletion_report,
    folders_of, get_resource, list_resources, normalized_image, popular_resources,
    require_resource, successes, DeletionReport, Popular, PopularQuery, PopularResourceItem,
    ResourceFilter, ResourceResponse, SearchQuery,
};
#[allow(unused_imports)]
use crate::api::shares::{
    check_share, checked, code_of, delete_share, get_share, list_shares, rebuild_allowed,
    rebuild_share, rebuilt, CheckReport, ListSharesQuery, ShareUpdate,
};
#[allow(unused_imports)]
use crate::api::tasks::{
    admit_task, cancel_task, create_task, default_priority, delete_task, get_task, list_tasks,
    retry_task, submit, task_rules_fit_together, CreateTaskRequest, DeleteTaskQuery, ListTasksQuery,
    NewTask, Submission, TaskResponse, TaskUpdate,
};
#[allow(unused_imports)]
use crate::db::models::{
    AccountStatus, ImportTask, Resource, ResourceType, Share, ShareStatus, TaskStatus,
};
#[allow(unused_imports)]
use crate::error::{AppError, ErrorResponse};
#[allow(unused_imports)]
use crate::laws::texts::{blank_texts_vanish, is_blank, is_tight, trimming_takes_white_space_only};
#[allow(unused_imports)]
use crate::services::tmdb::{year_of, TmdbMovie, TmdbTv};
#[allow(unused_imports)]
use crate::share_link::{code_in, is_share_link_of, share_id_of, without_code};
#[allow(unused_imports)]
use crate::text::number::decimal_int;
#[allow(unused_imports)]
use crate::text::{list_view, option_view, trimmed};

verus! {

/// The answer to each failure: what the caller did wrong is told; what went wrong outside is told
/// for the drive and the database alone; nothing is told of what went wrong inside.
pub proof fn failures_have_their_answers(m: String)
    ensures
        AppError::NotFound(m).status() == 404 && AppError::NotFound(m).answer() == m@,
        AppError::BadRequest(m).status() == 400 && AppError::BadRequest(m).answer() == m@,
        AppError::Unauthorized.status() == 401 && AppError::Unauthorized.answer() == "未授权"@,
        AppError::Forbidden.status() == 403 && AppError::Forbidden.answer() == "权限不足"@,
        AppError::RateLimited.status() == 429 && AppError::RateLimited.answer()
            == "请求频率超限，请稍后重试"@,
        AppError::Http(m).status() == 502 && AppError::Http(m).answer() == "外部服务请求失败"@,
        AppError::Api115(m).status() == 502 && AppError::Api115(m).answer() == "115 API: "@ + m@,
        AppError::TmdbApi(m).status() == 502 && AppError::TmdbApi(m).answer() == "TMDB API: "@ + m@,
        AppError::Database(m).status() == 500 && AppError::Database(m).answer()
            == "数据库操作失败"@,
        AppError::Config(m).status() == 500 && AppError::Config(m).answer() == "服务器配置错误"@,
        AppError::Redis(m).status() == 500 && AppError::Redis(m).answer() == "缓存服务错误"@,
        AppError::Serialize(m).status() == 500 && AppError::Serialize(m).answer()
            == "数据处理失败"@,
        AppError::Internal(m).status() == 500 && AppError::Internal(m).answer()
            == "服务器内部错误"@,
{
}

/// In the log every failure is told whole, behind what kind of failure it is.
pub proof fn failures_are_logged_whole(m: String)
    ensures
        AppError::NotFound(m).text() == "未找到: "@ + m@,
        AppError::BadRequest(m).text() == "请求参数无效: "@ + m@,
        AppError::Unauthorized.text() == "未授权"@,
        AppError::Forbidden.text() == "权限不足"@,
        AppError::RateLimited.text() == "请求频率超限"@,
        AppError::Database(m).text() == "数据库错误: "@ + m@,
        AppError::Http(m).text() == "HTTP 请求错误: "@ + m@,
        AppError::Api115(m).text() == "115 API 错误: "@ + m@,
        AppError::TmdbApi(m).text() == "TMDB API 错误: "@ + m@,
        AppError::Config(m).text() == "配置错误: "@ + m@,
        AppError::Redis(m).text() == "Redis 错误: "@ + m@,
        AppError::Serialize(m).text() == "序列化错误: "@ + m@,
        AppError::Internal(m).text() == "内部错误: "@ + m@,
{
}

/// The names under which states and kinds are stored.
pub proof fn states_have_their_names()
    ensures
        TaskStatus::Pending.name() == "pending"@,
        TaskStatus::Parsing.name() == "parsing"@,
        TaskStatus::WaitingSpace.name() == "waiting_space"@,
        TaskStatus::Transferring.name() == "transferring"@,
        TaskStatus::TransferFailed.name() == "transfer_failed"@,
        TaskStatus::Organizing.name() == "organizing"@,
        TaskStatus::Sharing.name() == "sharing"@,
        TaskStatus::Verifying.name() == "verifying"@,
        TaskStatus::Completed.name() == "completed"@,
        TaskStatus::Failed.name() == "failed"@,
        TaskStatus::Skipped.name() == "skipped"@,
        ShareStatus::Active.name() == "active"@,
        ShareStatus::Inactive.name() == "inactive"@,
        ShareStatus::Failed.name() == "failed"@,
        ShareStatus::Deleted.name() == "deleted"@,
        ResourceType::Movie.name() == "movie"@,
        ResourceType::Tv.name() == "tv"@,
        ResourceType::Anime.name() == "anime"@,
        ResourceType::Variety.name() == "variety"@,
        ResourceType::Documentary.name() == "documentary"@,
        ResourceType::Other.name() == "other"@,
        AccountStatus::Active.name() == "active"@,
        AccountStatus::Inactive.name() == "inactive"@,
        AccountStatus::Banned.name() == "banned"@,
        AccountStatus::CookieExpired.name() == "cookieexpired"@,
{
}

/// A page begins nowhere before the first item and holds from one item to a hundred; within these
/// bounds it is as it is asked for, and outside of them it is as near to it as they let it.
pub proof fn pages_keep_within_bounds(skip: i64, limit: i64)
    ensures
        window_of(skip, limit).skip >= 0,
        1 <= window_of(skip, limit).limit <= 100,
        skip >= 0 ==> window_of(skip, limit).skip == skip,
        skip < 0 ==> window_of(skip, limit).skip == 0,
        1 <= limit <= 100 ==> window_of(skip, limit).limit == limit,
        limit < 1 ==> window_of(skip, limit).limit == 1,
        limit > 100 ==> window_of(skip, limit).limit == 100,
{
}

/// A task is made of a link to a share of the drive, with white space around it or none. What is
/// stored is the link without its code; the code is the one that was given, or else the one in the
/// link. A new task waits, with the priority, the category and the remark that were given.
pub proof fn tasks_are_made_of_share_links(
    req: CreateTaskRequest,
    a: Seq<char>,
    url: Seq<char>,
    b: Seq<char>,
    r: Result<NewTask, AppError>,
)
    requires
        call_ensures(create_task, (req,), r),
        req.share_url@ == a + url + b,
        is_blank(a),
        is_blank(b),
        is_tight(url),
    ensures
        r is Ok <==> url.len() > 0 && is_share_link_of(without_code(url)),
        r matches Err(e) ==> e is BadRequest,
        r matches Ok(task) ==> {
            &&& task.source_share_url@ == without_code(url)
            &&& req.pick_code matches Some(c) ==> option_view(task.source_pick_code) == Some(c@)
            &&& req.pick_code is None ==> option_view(task.source_pick_code) == code_in(url)
            &&& task.status == TaskStatus::Pending
            &&& task.priority == req.priority
            &&& task.category == req.category
            &&& task.remark == req.remark
        },
{
    trimming_takes_white_space_only(a, url, b);
}

/// A share that was submitted before has the task that it had; a new one has a new task.
pub proof fn shares_have_one_task(task: NewTask, existing: Option<ImportTask>, r: Submission)
    requires
        call_ensures(submit, (task, existing), r),
    ensures
        existing is None <==> r is Store,
        r matches Submission::Store(t) ==> t == task,
        existing matches Some(old) ==> (r matches Submission::Known(t) && t.id == old.id && t.status
            == old.status && t.source_share_url == old.source_share_url && t.source_pick_code
            == old.source_pick_code && t.priority == old.priority && t.category == old.category
            && t.remark == old.remark && t.total_size == old.total_size && t.total_files
            == old.total_files && t.current_step == old.current_step && t.error_message
            == old.error_message && t.created_at == old.created_at && t.updated_at
            == old.updated_at),
{
}

/// What may be done with a task in a state. A failed or skipped one may be tried again, and waits
/// then with its failure forgotten; one that waits may be cancelled, and is skipped then; one that
/// is not at work may be deleted, and any may be if that is forced. A task that is not there is
/// never worked on.
pub proof fn tasks_change_by_their_states(
    task: &ImportTask,
    status: TaskStatus,
    id: i64,
    query: &DeleteTaskQuery,
    retried: Result<TaskUpdate, AppError>,
    cancelled: Result<TaskUpdate, AppError>,
    deleted: Result<(), AppError>,
)
    requires
        task.status@ == status.name(),
        call_ensures(retry_task, (Some(task), id), retried),
        call_ensures(cancel_task, (Some(task),), cancelled),
        call_ensures(delete_task, (Some(task), id, query), deleted),
    ensures
        retried is Ok <==> status == TaskStatus::Failed || status == TaskStatus::TransferFailed
            || status == TaskStatus::Skipped,
        retried matches Ok(u) ==> u.status == TaskStatus::Pending && u.forgets,
        cancelled is Ok <==> status == TaskStatus::Pending || status == TaskStatus::WaitingSpace,
        cancelled matches Ok(u) ==> u.status == TaskStatus::Skipped && !u.forgets,
        deleted is Ok <==> query.force == Some(true) || status == TaskStatus::Completed || status
            == TaskStatus::Failed || status == TaskStatus::TransferFailed || status
            == TaskStatus::Skipped || status == TaskStatus::WaitingSpace,
{
    task_rules_fit_together(status);
}

/// A task that is not there is not worked on, and the caller is told so.
pub proof fn missing_tasks_are_not_found(
    id: i64,
    query: &DeleteTaskQuery,
    retried: Result<TaskUpdate, AppError>,
    cancelled: Result<TaskUpdate, AppError>,
    deleted: Result<(), AppError>,
)
    requires
        call_ensures(retry_task, (None, id), retried),
        call_ensures(cancel_task, (None,), cancelled),
        call_ensures(delete_task, (None, id, query), deleted),
    ensures
        retried matches Err(e) && e.status() == 404,
        cancelled matches Err(e) && e.status() == 400,
        deleted matches Err(e) && e.status() == 404,
{
}

/// The code of a share is the stored one, or else the one in its link.
pub proof fn shares_are_called_by_their_codes(
    share: &Share,
    id: i64,
    r: Result<String, AppError>,
    d: Result<Option<String>, AppError>,
)
    requires
        call_ensures(check_share, (Some(share), id), r),
        call_ensures(delete_share, (Some(share), id), d),
    ensures
        share.share_code matches Some(c) ==> code_of(*share) == Some(c@),
        share.share_code is None ==> code_of(*share) == share_id_of(share.share_url@),
        r is Ok <==> code_of(*share) is Some,
        r matches Ok(code) ==> code_of(*share) == Some(code@),
        r matches Err(e) ==> e.status() == 400,
        d matches Ok(code) && option_view(code) == code_of(*share),
{
}

/// A share lives exactly if it could be read; that is what is stored of it and told.
pub proof fn shares_live_if_they_can_be_read(share: Share, read: Option<bool>, r: CheckReport)
    requires
        call_ensures(checked, (share, read), r),
    ensures
        r.share_id == share.id && r.share_url == share.share_url && r.previous_status
            == share.status,
        r.alive <==> read == Some(true),
        read == Some(true) ==> r.status == ShareStatus::Active,
        read != Some(true) ==> r.status == ShareStatus::Inactive,
{
}

/// A share is made anew exactly if it does not live any more, belongs to a resource, the resource
/// has files in the drive, and the rate allows it. What is stored then is the new link, with its
/// codes, as one that lives.
pub proof fn dead_shares_are_made_anew(
    share: &Share,
    id: i64,
    files: &[String],
    rate_allows: bool,
    outcome: Result<ShareResult, String>,
    r: Result<i64, AppError>,
    allowed: Result<(), AppError>,
    update: Result<ShareUpdate, AppError>,
)
    requires
        call_ensures(rebuild_share, (Some(share), id), r),
        call_ensures(rebuild_allowed, (files, rate_allows), allowed),
        call_ensures(rebuilt, (outcome,), update),
    ensures
        r is Ok <==> share.status@ != ShareStatus::Active.name() && share.resource_id is Some,
        r matches Ok(resource) ==> share.resource_id == Some(resource),
        allowed is Ok <==> files@.len() > 0 && rate_allows,
        files@.len() > 0 && !rate_allows ==> (allowed matches Err(e) && e.status() == 429),
        outcome matches Ok(made) ==> (update matches Ok(u) && u.share_url == made.share_url
            && u.pick_code == made.pick_code && u.share_code == made.share_id && u.status
            == ShareStatus::Active),
        outcome is Err ==> update is Err,
{
}

/// The codes of shares are collected one by one, in their order; a share without one is passed over.
pub proof fn codes_are_collected_in_order(shares: Seq<Share>, share: Share)
    ensures
        codes_of(Seq::empty()).len() == 0,
        code_of(share) matches Some(c) ==> codes_of(shares.push(share)) == codes_of(shares).push(c),
        code_of(share) is None ==> codes_of(shares.push(share)) == codes_of(shares),
{
    assert(shares.push(share).drop_last() =~= shares);
    assert(shares.push(share).last() == share);
}

/// What is told of a deletion: whether the resource is gone, how many of its shares were stored, and
/// how many of them were cancelled and how many could not be.
pub proof fn deletions_are_counted(
    id: i64,
    rows: u64,
    share_rows: u64,
    cancelled: &[bool],
    last: bool,
    r: DeletionReport,
)
    requires
        call_ensures(deletion_report, (id, rows, share_rows, cancelled), r),
    ensures
        r.resource_id == id,
        r.deleted <==> rows > 0,
        r.shares_deleted == share_rows,
        r.shares_canceled == successes(cancelled@),
        r.shares_canceled + r.share_cancel_failed == cancelled@.len(),
        successes(Seq::empty()) == 0,
        successes(cancelled@.push(last)) == successes(cancelled@) + if last {
            1int
        } else {
            0
        },
{
    assert(cancelled@.push(last).drop_last() =~= cancelled@);
}

/// The folders among entries are listed one by one, in their order, with their identifiers and
/// names; files are passed over.
pub proof fn folders_are_listed_in_order(entries: Seq<FileEntryView>, entry: FileEntryView)
    ensures
        folders_of(Seq::empty()).len() == 0,
        !entry.is_dir ==> folders_of(entries.push(entry)) == folders_of(entries),
        entry.is_dir ==> folders_of(entries.push(entry)) == folders_of(entries).push(
            (
                match entry.file_id {
                    Some(id) => id,
                    None => Seq::empty(),
                },
                entry.name,
            ),
        ),
{
    assert(entries.push(entry).drop_last() =~= entries);
    assert(entries.push(entry).last() == entry);
}

/// The link to an image: what is a path stands under the address of the database's images; what is
/// a link stays; of white space alone there is none.
pub proof fn image_links_are_whole(a: Seq<char>, url: Seq<char>, b: Seq<char>)
    requires
        is_blank(a),
        is_blank(b),
        is_tight(url),
    ensures
        url.len() == 0 ==> normalized_image(Some(a + url + b)) is None,
        url.len() > 0 && url[0] == '/' ==> normalized_image(Some(a + url + b)) == Some(
            "https://image.tmdb.org/t/p/w500"@ + url,
        ),
        url.len() > 0 && url[0] != '/' ==> normalized_image(Some(a + url + b)) == Some(url),
        normalized_image(None) is None,
{
    trimming_takes_white_space_only(a, url, b);
}

/// What is searched for: titles that hold the keyword, of the kind and the year that are asked for.
/// What is white space alone is not asked for.
pub proof fn resources_are_searched_by_what_is_told(q: &SearchQuery, r: ResourceFilter)
    requires
        call_ensures(list_resources, (q,), r),
    ensures
        q.keyword matches Some(k) ==> !is_blank(k@) ==> option_view(r.keyword) == Some(
            seq!['%'] + trimmed(k@) + seq!['%'],
        ),
        q.keyword matches Some(k) ==> is_blank(k@) ==> r.keyword is None,
        q.keyword is None ==> r.keyword is None,
        q.resource_type matches Some(k) ==> !is_blank(k@) ==> option_view(r.resource_type) == Some(
            trimmed(k@),
        ),
        q.resource_type matches Some(k) ==> is_blank(k@) ==> r.resource_type is None,
        q.resource_type is None ==> r.resource_type is None,
        r.year == q.year,
        r.window == window_of(q.skip, q.limit),
{
    reveal_strlit("%");
    assert("%"@ =~= seq!['%']);
    if let Some(k) = q.keyword {
        blank_texts_vanish(k@);
    }
    if let Some(k) = q.resource_type {
        blank_texts_vanish(k@);
    }
}

/// What is popular is asked for of films or of series, of films where nothing is said, and from one
/// to forty of them; another kind is refused.
pub proof fn popular_lists_are_of_two_kinds(q: &PopularQuery, r: Result<Popular, AppError>)
    requires
        call_ensures(popular_resources, (q,), r),
    ensures
        ({
            let limit: int = if q.limit < 1 {
                1
            } else if q.limit > 40 {
                40
            } else {
                q.limit as int
            };
            let films = match q.resource_type {
                Some(k) => k@.len() == 0 || k@ == "movie"@,
                None => true,
            };
            let series = match q.resource_type {
                Some(k) => k@ == "tv"@,
                None => false,
            };
            &&& films <==> (r matches Ok(Popular::Movies { limit: l }))
            &&& series <==> (r matches Ok(Popular::Series { limit: l }))
            &&& r matches Ok(Popular::Movies { limit: l }) ==> l == limit
            &&& r matches Ok(Popular::Series { limit: l }) ==> l == limit
            &&& r matches Err(e) ==> e.status() == 400
        }),
{
    reveal_strlit("movie");
    reveal_strlit("tv");
    assert("movie"@.len() == 5 && "tv"@.len() == 2);
}

/// What is told of a popular film or series is what the database tells of it.
pub proof fn popular_items_tell_what_the_database_tells(
    m: TmdbMovie,
    t: TmdbTv,
    film: PopularResourceItem,
    series: PopularResourceItem,
)
    requires
        call_ensures(PopularResourceItem::from_movie, (m,), film),
        call_ensures(PopularResourceItem::from_tv, (t,), series),
    ensures
        film.title == m.title && film.original_title == m.original_title && film.tmdb_id == m.id,
        film.year == year_of(option_view(m.release_date)) && film.overview == m.overview,
        film.resource_type@ == "movie"@,
        option_view(film.poster_url) == normalized_image(option_view(m.poster_path)),
        option_view(film.backdrop_url) == normalized_image(option_view(m.backdrop_path)),
        series.title == t.name && series.original_title == t.original_name && series.tmdb_id == t.id,
        series.year == year_of(option_view(t.first_air_date)) && series.overview == t.overview,
        series.resource_type@ == "tv"@,
        option_view(series.poster_url) == normalized_image(option_view(t.poster_path)),
        option_view(series.backdrop_url) == normalized_image(option_view(t.backdrop_path)),
{
}

/// What is told of a stored resource is what is stored, with whole links to its images.
pub proof fn resources_are_told_as_they_are_stored(resource: Resource, r: ResourceResponse)
    requires
        call_ensures(ResourceResponse::from_resource, (resource,), r),
    ensures
        r.id == resource.id && r.title == resource.title && r.original_title
            == resource.original_title && r.year == resource.year,
        r.resource_type == resource.resource_type && r.tmdb_id == resource.tmdb_id && r.imdb_id
            == resource.imdb_id && r.overview == resource.overview,
        r.status == resource.status && r.created_at == resource.created_at,
        option_view(r.poster_url) == normalized_image(option_view(resource.poster_url)),
        option_view(r.backdrop_url) == normalized_image(option_view(resource.backdrop_url)),
{
}

/// The statistics tell what was counted; the shares that do not live are the others.
pub proof fn statistics_tell_what_was_counted(
    counts: &StoredCounts,
    quota: Option<QuotaInfo>,
    r: Stats,
)
    requires
        counts.shares >= 0,
        counts.active_shares >= 0,
        call_ensures(get_stats, (counts, quota), r),
    ensures
        r.resources == counts.resources,
        r.shares_total == counts.shares,
        r.shares_active == counts.active_shares,
        r.shares_inactive == counts.shares - counts.active_shares,
        r.tasks_total == counts.tasks,
        r.tasks_pending == counts.pending_tasks,
        r.tasks_failed == counts.failed_tasks,
        r.quota == quota,
{
}

/// What is not there is told to be missing, by its number; what is there is given as it is stored.
pub proof fn what_is_missing_is_not_found(
    id: i64,
    share: Option<Share>,
    task: Option<ImportTask>,
    resource: Option<Resource>,
    exists_there: bool,
    s: Result<Share, AppError>,
    t: Result<TaskResponse, AppError>,
    r: Result<ResourceResponse, AppError>,
    required: Result<(), AppError>,
)
    requires
        call_ensures(get_share, (share, id), s),
        call_ensures(get_task, (task, id), t),
        call_ensures(get_resource, (resource, id), r),
        call_ensures(require_resource, (exists_there, id), required),
    ensures
        s is Ok <==> share is Some,
        s matches Ok(v) ==> share == Some(v),
        s matches Err(e) ==> e.status() == 404 && e.answer() == "分享 #"@ + decimal_int(id as int)
            + " 不存在"@,
        t is Ok <==> task is Some,
        t matches Ok(v) ==> v.id == task->0.id && v.status == task->0.status && v.source_share_url
            == task->0.source_share_url && v.error_message == task->0.error_message,
        t matches Err(e) ==> e.status() == 404 && e.answer() == "任务 #"@ + decimal_int(id as int)
            + " 不存在"@,
        r is Ok <==> resource is Some,
        r matches Ok(v) ==> v.id == resource->0.id && v.title == resource->0.title
            && v.resource_type == resource->0.resource_type && v.tmdb_id == resource->0.tmdb_id
            && v.year == resource->0.year && v.overview == resource->0.overview && v.original_title
            == resource->0.original_title && v.imdb_id == resource->0.imdb_id && v.status
            == resource->0.status && v.created_at == resource->0.created_at,
        r matches Err(e) ==> e.status() == 404 && e.answer() == "资源 #"@ + decimal_int(id as int)
            + " 不存在"@,
        required is Ok <==> exists_there,
        required matches Err(e) ==> e.status() == 404,
{
}

/// A resource is deleted with all of its shares: the code of each is handed on for cancelling.
pub proof fn resources_are_deleted_with_their_shares(
    present: bool,
    id: i64,
    shares: &[Share],
    r: Result<Vec<String>, AppError>,
)
    requires
        call_ensures(delete_resource, (present, id, shares), r),
    ensures
        r is Ok <==> present,
        r matches Ok(codes) ==> list_view(codes@) == codes_of(shares@),
        r matches Err(e) ==> e.status() == 404,
{
}

/// A task is taken exactly if the session is valid; lists of tasks and shares are told in pages.
pub proof fn tasks_need_a_session(
    valid: bool,
    tasks: &ListTasksQuery,
    shares: &ListSharesQuery,
    r: Result<(), AppError>,
    task_page: PageWindow,
    share_page: PageWindow,
)
    requires
        call_ensures(admit_task, (valid,), r),
        call_ensures(list_tasks, (tasks,), task_page),
        call_ensures(list_shares, (shares,), share_page),
    ensures
        r is Ok <==> valid,
        r matches Err(e) ==> e.status() == 400,
        task_page == window_of(tasks.skip, tasks.limit),
        share_page == window_of(shares.skip, shares.limit),
{
}

/// An answer to a failure has its status and its answer.
pub proof fn failures_are_answered(e: AppError, r: ErrorResponse)
    requires
        call_ensures(AppError::into_response, (e,), r),
    ensures
        r.status_code == e.status(),
        r.message@ == e.answer(),
{
}

/// What is not said has a default: twenty items of a list, twelve popular ones, the priority five,
/// the root folder.
pub proof fn defaults_are_fixed(limit: i64, popular: usize, priority: i32, folder: String)
    requires
        call_ensures(default_limit, (), limit),
        call_ensures(default_popular_limit, (), popular),
        call_ensures(default_priority, (), priority),
        call_ensures(default_folder_cid, (), folder),
    ensures
        limit == 20,
        popular == 12,
        priority == 5,
        folder@ == seq!['0'],
{
    reveal_strlit("0");
    assert("0"@ =~= seq!['0']);
}

} // verus!
