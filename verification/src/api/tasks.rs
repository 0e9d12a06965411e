//! Import tasks.

use vstd::prelude::*;

pub use crate::api::paging::PagedResponse;
#[allow(unused_imports)]
use crate::api::paging::{page_window, window_of, PageWindow};
#[allow(unused_imports)]
use crate::db::models::{ImportTask, TaskStatus};
use crate::error::AppError;
#[allow(unused_imports)]
use crate::share_link::{
    clean_link, code_in, is_share_link, is_share_link_of, pick_code_in, without_code,
};
#[allow(unused_imports)]
use crate::text::number::{decimal_i64, decimal_int};
#[allow(unused_imports)]
use crate::text::{cat3, lemma_find_from, option_view, same, trim, trimmed};

verus! {

// ---------------------------------------------------------------------------
// Requests and answers
// ---------------------------------------------------------------------------

/// A request to import a share.
#[derive(Debug)]
pub struct CreateTaskRequest {
    pub share_url: String,
    pub pick_code: Option<String>,
    pub category: Option<String>,
    pub priority: i32,
    pub remark: Option<String>,
}

/// The priority of a task where none is given.
pub fn default_priority() -> (r: i32)
    ensures
        r == 5,
{
    5
}

/// Which tasks are asked for.
#[derive(Debug)]
pub struct ListTasksQuery {
    pub skip: i64,
    pub limit: i64,
    pub status: Option<String>,
}

/// How a task is to be deleted.
#[derive(Debug)]
pub struct DeleteTaskQuery {
    pub force: Option<bool>,
}

/// A task, as it is answered.
#[derive(Debug)]
pub struct TaskResponse {
    pub id: i64,
    pub source_share_url: String,
    pub source_pick_code: Option<String>,
    pub status: String,
    pub total_size: Option<i64>,
    pub total_files: Option<i32>,
    pub current_step: Option<String>,
    pub error_message: Option<String>,
    pub priority: i32,
    pub category: Option<String>,
    pub remark: Option<String>,
    pub created_at: i64,
    pub updated_at: i64,
}

impl From<ImportTask> for TaskResponse {
    fn from(t: ImportTask) -> (r: Self) {
        TaskResponse {
            id: t.id,
            source_share_url: t.source_share_url,
            source_pick_code: t.source_pick_code,
            status: t.status,
            total_size: t.total_size,
            total_files: t.total_files,
            current_step: t.current_step,
            error_message: t.error_message,
            priority: t.priority,
            category: t.category,
            remark: t.remark,
            created_at: t.created_at,
            updated_at: t.updated_at,
        }
    }
}

impl vstd::std_specs::convert::FromSpecImpl<ImportTask> for TaskResponse {
    open spec fn obeys_from_spec() -> bool {
        true
    }

    open spec fn from_spec(t: ImportTask) -> Self {
        TaskResponse {
            id: t.id,
            source_share_url: t.source_share_url,
            source_pick_code: t.source_pick_code,
            status: t.status,
            total_size: t.total_size,
            total_files: t.total_files,
            current_step: t.current_step,
            error_message: t.error_message,
            priority: t.priority,
            category: t.category,
            remark: t.remark,
            created_at: t.created_at,
            updated_at: t.updated_at,
        }
    }
}

/// A task to be stored. Its status is `pending`.
#[derive(Debug)]
pub struct NewTask {
    pub source_share_url: String,
    pub source_pick_code: Option<String>,
    pub status: TaskStatus,
    pub priority: i32,
    pub category: Option<String>,
    pub remark: Option<String>,
}

/// What changes of a task.
#[derive(Debug, Clone, Copy, PartialEq, Eq, Structural)]
pub struct TaskUpdate {
    pub status: TaskStatus,
    /// Whether the error and the step of the task are forgotten.
    pub forgets: bool,
}

// ---------------------------------------------------------------------------
// Creating tasks
// ---------------------------------------------------------------------------

/// The code that opens a share: the one that is given, or else the one in the link.
pub open spec fn code_for(given: Option<Seq<char>>, url: Seq<char>) -> Option<Seq<char>> {
    match given {
        Some(code) => Some(code),
        None => code_in(url),
    }
}

/// Whether a link, without white space around it, is accepted: what is stored of it has to be a
/// share link of the drive.
pub open spec fn is_accepted_link(url: Seq<char>) -> bool {
    url.len() > 0 && is_share_link_of(without_code(url))
}

/// The task that a request asks for. The link is stored without the code.
pub fn create_task(req: CreateTaskRequest) -> (r: Result<NewTask, AppError>)
    ensures
        ({
            let url = trimmed(req.share_url@);
            match r {
                Ok(task) => {
                    &&& is_accepted_link(url)
                    &&& task.source_share_url@ == without_code(url)
                    &&& option_view(task.source_pick_code) == code_for(
                        option_view(req.pick_code),
                        url,
                    )
                    &&& task.status == TaskStatus::Pending
                    &&& task.priority == req.priority
                    &&& task.category == req.category
                    &&& task.remark == req.remark
                },
                Err(AppError::BadRequest(m)) => if url.len() == 0 {
                    m@ == "share_url 不能为空"@
                } else {
                    &&& !is_accepted_link(url)
                    &&& m@ == "分享链接格式无效，仅支持 115 的分享链接"@
                },
                Err(_) => false,
            }
        }),
{
    let url = trim(req.share_url.as_str());
    if url.as_str().is_empty() {
        return Err(AppError::BadRequest("share_url 不能为空".to_string()));
    }
    let source_share_url = clean_link(url.as_str());
    if !is_share_link(source_share_url.as_str()) {
        return Err(
            AppError::BadRequest("分享链接格式无效，仅支持 115 的分享链接".to_string()),
        );
    }
    let source_pick_code = match req.pick_code {
        Some(code) => Some(code),
        None => pick_code_in(url.as_str()),
    };
    Ok(
        NewTask {
            source_share_url,
            source_pick_code,
            status: TaskStatus::Pending,
            priority: req.priority,
            category: req.category,
            remark: req.remark,
        },
    )
}

/// A link that is stored like one that was accepted is accepted too, whatever code it gives: a
/// share that was submitted before is found again.
pub proof fn links_stored_alike_are_accepted_alike(a: Seq<char>, b: Seq<char>)
    requires
        is_accepted_link(a),
        without_code(b) == without_code(a),
    ensures
        is_accepted_link(b),
{
    reveal_strlit("/s/");
    if b.len() == 0 {
        reveal_strlit("?");
        lemma_find_from(b, "?"@, 0);
        assert(without_code(b) == b);
    }
}

/// What becomes of a request to import a share.
#[derive(Debug)]
pub enum Submission {
    /// The share was submitted before: this is its task.
    Known(TaskResponse),
    /// A task is stored.
    Store(NewTask),
}

/// What becomes of a task that is to be created, given the one with the same link, if there is one:
/// a share is imported once.
pub fn submit(task: NewTask, existing: Option<ImportTask>) -> (r: Submission)
    ensures
        match existing {
            Some(t) => r is Known && r->Known_0 == <TaskResponse as vstd::std_specs::convert::FromSpec<
                ImportTask,
            >>::from_spec(t),
            None => r is Store && r->Store_0 == task,
        },
{
    match existing {
        Some(t) => Submission::Known(TaskResponse::from(t)),
        None => Submission::Store(task),
    }
}

/// Whether a stored task goes into the queue: only where the account can be used.
pub fn admit_task(session_is_valid: bool) -> (r: Result<(), AppError>)
    ensures
        match r {
            Ok(_) => session_is_valid,
            Err(AppError::BadRequest(m)) => !session_is_valid && m@
                == "115 会话无效或 Cookie 配置错误，请在系统设置中检查并重新保存 Cookie"@,
            Err(_) => false,
        },
{
    if session_is_valid {
        Ok(())
    } else {
        Err(
            AppError::BadRequest(
                "115 会话无效或 Cookie 配置错误，请在系统设置中检查并重新保存 Cookie".to_string(),
            ),
        )
    }
}

// ---------------------------------------------------------------------------
// Changing tasks
// ---------------------------------------------------------------------------

/// Whether a task with a status may be tried again.
pub open spec fn can_retry(status: Seq<char>) -> bool {
    status == TaskStatus::Failed.name() || status == TaskStatus::TransferFailed.name() || status
        == TaskStatus::Skipped.name()
}

/// Whether a task with a status may be cancelled.
pub open spec fn can_cancel(status: Seq<char>) -> bool {
    status == TaskStatus::Pending.name() || status == TaskStatus::WaitingSpace.name()
}

/// Whether a task with a status may be deleted without force: it is over, or waits for space.
pub open spec fn can_delete(status: Seq<char>) -> bool {
    status == TaskStatus::Completed.name() || status == TaskStatus::Failed.name() || status
        == TaskStatus::TransferFailed.name() || status == TaskStatus::Skipped.name() || status
        == TaskStatus::WaitingSpace.name()
}

/// The part of the list of tasks that is asked for.
pub fn list_tasks(q: &ListTasksQuery) -> (r: PageWindow)
    ensures
        r == window_of(q.skip, q.limit),
{
    page_window(q.skip, q.limit)
}

/// There is no such task.
pub open spec fn is_missing(e: AppError, id: i64) -> bool {
    &&& e is NotFound
    &&& e->NotFound_0@ == "任务 #"@ + decimal_int(id as int) + " 不存在"@
}

/// There is no such task.
fn missing(id: i64) -> (r: AppError)
    ensures
        is_missing(r, id),
{
    AppError::NotFound(cat3("任务 #", decimal_i64(id).as_str(), " 不存在"))
}

/// A task that was asked for.
pub fn get_task(task: Option<ImportTask>, id: i64) -> (r: Result<TaskResponse, AppError>)
    ensures
        match r {
            Ok(response) => task is Some && response
                == <TaskResponse as vstd::std_specs::convert::FromSpec<ImportTask>>::from_spec(
                task->0,
            ),
            Err(e) => task is None && is_missing(e, id),
        },
{
    match task {
        Some(t) => Ok(TaskResponse::from(t)),
        None => Err(missing(id)),
    }
}

/// What changes of a task that is tried again.
pub fn retry_task(task: Option<&ImportTask>, id: i64) -> (r: Result<TaskUpdate, AppError>)
    ensures
        match r {
            Ok(update) => {
                &&& task is Some && can_retry(task->0.status@)
                &&& update == (TaskUpdate { status: TaskStatus::Pending, forgets: true })
            },
            Err(e) => match task {
                Some(t) => {
                    &&& !can_retry(t.status@)
                    &&& e is BadRequest
                    &&& e->BadRequest_0@ == "任务状态为 "@ + t.status@ + "，无法重试"@
                },
                None => is_missing(e, id),
            },
        },
{
    match task {
        Some(t) => {
            let s = t.status.as_str();
            if same(s, TaskStatus::Failed.as_str()) || same(
                s,
                TaskStatus::TransferFailed.as_str(),
            ) || same(s, TaskStatus::Skipped.as_str()) {
                Ok(TaskUpdate { status: TaskStatus::Pending, forgets: true })
            } else {
                Err(AppError::BadRequest(cat3("任务状态为 ", s, "，无法重试")))
            }
        },
        None => Err(missing(id)),
    }
}

/// What changes of a task that is cancelled.
pub fn cancel_task(task: Option<&ImportTask>) -> (r: Result<TaskUpdate, AppError>)
    ensures
        match r {
            Ok(update) => {
                &&& task is Some && can_cancel(task->0.status@)
                &&& update == (TaskUpdate { status: TaskStatus::Skipped, forgets: false })
            },
            Err(e) => {
                &&& task is None || !can_cancel(task->0.status@)
                &&& e is BadRequest
                &&& e->BadRequest_0@
                    == "任务不存在或状态不允许取消（只可取消待处理或空间等待中的任务）"@
            },
        },
{
    match task {
        Some(t) => {
            let s = t.status.as_str();
            if same(s, TaskStatus::Pending.as_str()) || same(
                s,
                TaskStatus::WaitingSpace.as_str(),
            ) {
                return Ok(TaskUpdate { status: TaskStatus::Skipped, forgets: false });
            }
        },
        None => {},
    }
    Err(
        AppError::BadRequest(
            "任务不存在或状态不允许取消（只可取消待处理或空间等待中的任务）".to_string(),
        ),
    )
}

/// Whether a task may be deleted. By force any may.
pub fn delete_task(task: Option<&ImportTask>, id: i64, query: &DeleteTaskQuery) -> (r: Result<
    (),
    AppError,
>)
    ensures
        match r {
            Ok(_) => task is Some && (query.force == Some(true) || can_delete(task->0.status@)),
            Err(e) => match task {
                Some(t) => {
                    &&& query.force != Some(true)
                    &&& !can_delete(t.status@)
                    &&& e is BadRequest
                    &&& e->BadRequest_0@ == "任务正在运行中（"@ + t.status@
                        + "），请先取消再删除；如确需删除可使用 ?force=true"@
                },
                None => is_missing(e, id),
            },
        },
{
    match task {
        Some(t) => {
            let s = t.status.as_str();
            let force = match query.force {
                Some(f) => f,
                None => false,
            };
            let over = same(s, TaskStatus::Completed.as_str()) || same(
                s,
                TaskStatus::Failed.as_str(),
            ) || same(s, TaskStatus::TransferFailed.as_str()) || same(
                s,
                TaskStatus::Skipped.as_str(),
            ) || same(s, TaskStatus::WaitingSpace.as_str());
            if force || over {
                Ok(())
            } else {
                Err(
                    AppError::BadRequest(
                        cat3(
                            "任务正在运行中（",
                            s,
                            "），请先取消再删除；如确需删除可使用 ?force=true",
                        ),
                    ),
                )
            }
        },
        None => Err(missing(id)),
    }
}

// ---------------------------------------------------------------------------
// Laws
// ---------------------------------------------------------------------------

/// A cancelled task can be tried again or deleted, and one that is tried again can be cancelled;
/// none can be both tried again and cancelled; and one that is under way can be neither, nor be
/// deleted without force.
pub proof fn task_rules_fit_together(status: TaskStatus)
    ensures
        can_retry(TaskStatus::Skipped.name()) && can_delete(TaskStatus::Skipped.name()),
        can_cancel(TaskStatus::Pending.name()),
        !(can_retry(status.name()) && can_cancel(status.name())),
        can_retry(status.name()) ==> can_delete(status.name()),
        can_cancel(status.name()) <==> status == TaskStatus::Pending || status
            == TaskStatus::WaitingSpace,
        can_retry(status.name()) <==> status == TaskStatus::Failed || status
            == TaskStatus::TransferFailed || status == TaskStatus::Skipped,
        can_delete(status.name()) <==> status == TaskStatus::Completed || status
            == TaskStatus::Failed || status == TaskStatus::TransferFailed || status
            == TaskStatus::Skipped || status == TaskStatus::WaitingSpace,
{
    crate::db::models::task_status_names_differ(status, TaskStatus::Pending);
    crate::db::models::task_status_names_differ(status, TaskStatus::WaitingSpace);
    crate::db::models::task_status_names_differ(status, TaskStatus::Completed);
    crate::db::models::task_status_names_differ(status, TaskStatus::Failed);
    crate::db::models::task_status_names_differ(status, TaskStatus::TransferFailed);
    crate::db::models::task_status_names_differ(status, TaskStatus::Skipped);
}

} // verus!
