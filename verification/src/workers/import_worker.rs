//! The import of a share, step by step: `pending` → `parsing` → `waiting_space` → `transferring` →
//! `organizing` → `sharing` → `completed`.
//!
//! An import is a state. Each step takes in what came of the last action, and tells which status the
//! task has from now on and what is done next.

use vstd::prelude::*;

#[allow(unused_imports)]
use crate::adapters::adapter_115::{entries_view, FileEntry, QuotaInfo, ShareInfo, ShareResult};
#[allow(unused_imports)]
use crate::chance::{is_pause, pause};
use crate::config::Config;
use crate::db::models::TaskStatus;
#[allow(unused_imports)]
use crate::services::organizer::{results_view, OrganizerResult};
#[allow(unused_imports)]
use crate::services::share_limiter::{interval_left, interval_wait, least_pause, may_share};
use crate::services::tmdb::TmdbResult;
#[allow(unused_imports)]
use crate::share_link::share_id_of;
#[allow(unused_imports)]
use crate::text::{cat, copy_list, copy_option, list_view, same};
use crate::utils::ParsedFileName;
#[allow(unused_imports)]
use crate::workers::import_plan::{
    build_share_file_ids, check_limits, check_space, cleanup_allowed, cleanup_confirmed, entry_ids,
    extract_share_id, ids_of, infer, inferred_from, is_listed, is_too_large, is_too_many,
    lacks_space, lookup_fits, lookup_for, may_clean, name_view, no_space_text, share_ids_of,
    share_title, share_title_of, temp_folder, temp_folder_name, too_large_text, too_many_text,
    Lookup,
};

verus! {

/// The queue that tasks wait in.
pub const TASK_QUEUE_KEY: &'static str = "hidden:task_queue";

/// How many seconds to wait when no task waits.
pub const IDLE_SLEEP_SECS: u64 = 3;

// ---------------------------------------------------------------------------
// The queue
// ---------------------------------------------------------------------------

/// What is done with the next task of the queue.
#[derive(Debug, Clone, Copy, PartialEq, Eq, Structural)]
pub enum Turn {
    /// There is none: wait.
    Idle { secs: u64 },
    /// See whether this one is to be imported.
    Look { task_id: i64 },
}

/// What is done with what the queue gave. A queue that cannot be read counts as empty.
pub fn next_turn(popped: Option<i64>) -> (r: Turn)
    ensures
        r == match popped {
            Some(task_id) => Turn::Look { task_id },
            None => Turn::Idle { secs: IDLE_SLEEP_SECS },
        },
{
    match popped {
        Some(task_id) => Turn::Look { task_id },
        None => Turn::Idle { secs: IDLE_SLEEP_SECS },
    }
}

/// Whether a task is imported: only one that is there and waits. One that is under way, or was
/// cancelled since, is passed over.
pub fn should_process(status: Option<&str>) -> (r: bool)
    ensures
        r == match status {
            Some(s) => s@ == TaskStatus::Pending.name(),
            None => false,
        },
{
    match status {
        Some(s) => same(s, TaskStatus::Pending.as_str()),
        None => false,
    }
}

// ---------------------------------------------------------------------------
// States, actions and events
// ---------------------------------------------------------------------------

/// What an import waits for.
#[derive(Debug, Clone, Copy, PartialEq, Eq, Structural)]
pub enum Stage {
    Loading,
    Parsing,
    Measuring,
    CheckingSpace,
    CreatingFolder,
    Transferring,
    Listing,
    Collecting,
    Matching,
    Organizing,
    Saving,
    CheckingRate,
    Pausing,
    Sharing,
    SavingShare,
    ListingRoot,
    Deleting,
    Finishing,
    Over,
}

/// An import.
pub struct ImportRun {
    pub task_id: i64,
    pub config: Config,
    pub stage: Stage,
    /// The share, and the code that opens it.
    pub share_id: String,
    pub pick_code: Option<String>,
    /// What the share holds.
    pub total_size: i64,
    pub file_count: usize,
    pub file_ids: Vec<String>,
    /// The folder that it is taken over into, what stands in it, and all files in it.
    pub temp_folder: String,
    pub temp_files: Vec<FileEntry>,
    pub media_files: Vec<FileEntry>,
    /// What it is.
    pub inferred: Option<ParsedFileName>,
    pub tmdb: Option<TmdbResult>,
    /// What was kept, and under which number it is stored.
    pub results: Vec<OrganizerResult>,
    pub resource_id: Option<i64>,
    /// What is shared, and under which title.
    pub share_ids: Vec<String>,
    pub share_title: String,
}

/// What is done next.
pub enum Action {
    /// Read the link and the code of the task.
    Load,
    /// Read what a share holds.
    Parse { share_id: String, pick_code: Option<String> },
    /// Store the size of the share and the number of its files with the task.
    Measure { total_size: i64, total_files: i32 },
    /// Ask for the space of the account.
    ReadQuota,
    /// Create a folder.
    CreateFolder { parent: String, name: String },
    /// Take the files of a share over into a folder.
    Transfer {
        share_id: String,
        pick_code: Option<String>,
        file_ids: Vec<String>,
        folder: String,
    },
    /// List a folder.
    List { folder: String },
    /// Find all files in what was listed.
    Collect,
    /// Search the database.
    Match(Lookup),
    /// Tidy up.
    Organize,
    /// Store the resource and its files.
    Save,
    /// Ask whether one more share may be created.
    CheckRate,
    /// Wait.
    Pause { millis: u128 },
    /// Create a share.
    CreateShare { file_ids: Vec<String> },
    /// Store the share.
    SaveShare(ShareRow),
    /// Delete a folder.
    Delete { folder: String },
    /// Store that the task is completed.
    Complete,
    /// Store that the task failed, and why.
    Fail { message: String },
    /// Store why the task has to wait for space.
    Hold { message: String },
    /// Nothing: the task is completed.
    Stop,
}

/// A share to be stored.
#[derive(Debug)]
pub struct ShareRow {
    pub resource_id: Option<i64>,
    pub share_url: String,
    pub pick_code: String,
    pub share_code: String,
    pub share_title: String,
    pub file_count: i32,
    pub total_size: i64,
}

/// What came of an action.
pub enum Event {
    Loaded { url: String, pick_code: Option<String> },
    Parsed(ShareInfo),
    Measured,
    QuotaRead(QuotaInfo),
    FolderCreated(String),
    Transferred(bool),
    Listed(Vec<FileEntry>),
    Collected(Vec<FileEntry>),
    Matched(Option<TmdbResult>),
    Organized(Vec<OrganizerResult>),
    Saved(Option<i64>),
    /// Whether the rate allows a share, and how many milliseconds ago the last one was created.
    RateChecked { allowed: bool, since_last: Option<u64> },
    Paused,
    Shared(ShareResult),
    ShareRefused,
    ShareSaved,
    RootListed(Option<Vec<FileEntry>>),
    Deleted,
    Finished,
    /// It failed, and why.
    Failed(String),
}

/// The status that a task has from now on, and what is done in it.
#[derive(Debug)]
pub struct Mark {
    pub status: TaskStatus,
    pub step: String,
}

/// A step of an import.
pub struct Step {
    pub run: ImportRun,
    pub mark: Option<Mark>,
    pub action: Action,
}

/// Whether an event is one that an import waits for. Not all actions can fail: some count as done
/// with nothing to show.
pub open spec fn expected(stage: Stage, event: Event) -> bool {
    match event {
        Event::Loaded { .. } => stage == Stage::Loading,
        Event::Parsed(_) => stage == Stage::Parsing,
        Event::Measured => stage == Stage::Measuring,
        Event::QuotaRead(_) => stage == Stage::CheckingSpace,
        Event::FolderCreated(_) => stage == Stage::CreatingFolder,
        Event::Transferred(_) => stage == Stage::Transferring,
        Event::Listed(_) => stage == Stage::Listing,
        Event::Collected(_) => stage == Stage::Collecting,
        Event::Matched(_) => stage == Stage::Matching,
        Event::Organized(_) => stage == Stage::Organizing,
        Event::Saved(_) => stage == Stage::Saving,
        Event::RateChecked { .. } => stage == Stage::CheckingRate,
        Event::Paused => stage == Stage::Pausing,
        Event::Shared(_) => stage == Stage::Sharing,
        Event::ShareRefused => stage == Stage::Sharing,
        Event::ShareSaved => stage == Stage::SavingShare,
        Event::RootListed(_) => stage == Stage::ListingRoot,
        Event::Deleted => stage == Stage::Deleting,
        Event::Finished => stage == Stage::Finishing,
        Event::Failed(_) => can_fail(stage),
    }
}

/// Whether the failure of what an import waits for fails the task.
pub open spec fn can_fail(stage: Stage) -> bool {
    stage == Stage::Loading || stage == Stage::Parsing || stage == Stage::Measuring || stage
        == Stage::CheckingSpace || stage == Stage::CreatingFolder || stage == Stage::Transferring
        || stage == Stage::Listing || stage == Stage::Collecting || stage == Stage::SavingShare
        || stage == Stage::Finishing
}

// ---------------------------------------------------------------------------
// Which steps there are
// ---------------------------------------------------------------------------

/// Whether a step marks a status.
pub open spec fn marks(step: Step, status: TaskStatus, text: Seq<char>) -> bool {
    &&& step.mark is Some
    &&& step.mark->0.status == status
    &&& step.mark->0.step@ == text
}

/// Whether a step fails the task for a reason.
pub open spec fn fails(run: ImportRun, step: Step, reason: Seq<char>) -> bool {
    &&& step.run == (ImportRun { stage: Stage::Over, ..run })
    &&& step.action is Fail
    &&& step.action->Fail_message@ == reason
}

/// Whether a step completes the task.
pub open spec fn completes(run: ImportRun, step: Step) -> bool {
    &&& step.run == (ImportRun { stage: Stage::Finishing, ..run })
    &&& step.mark is None
    &&& step.action is Complete
}

/// The first step: nothing is known yet but the task.
pub open spec fn begins(task_id: i64, config: Config, step: Step) -> bool {
    &&& step.run.task_id == task_id
    &&& step.run.config == config
    &&& step.run.stage == Stage::Loading
    &&& step.run.share_id@.len() == 0
    &&& step.run.pick_code is None
    &&& step.run.total_size == 0
    &&& step.run.file_count == 0
    &&& step.run.file_ids@.len() == 0
    &&& step.run.temp_folder@.len() == 0
    &&& step.run.temp_files@.len() == 0
    &&& step.run.media_files@.len() == 0
    &&& step.run.inferred is None
    &&& step.run.tmdb is None
    &&& step.run.results@.len() == 0
    &&& step.run.resource_id is None
    &&& step.run.share_ids@.len() == 0
    &&& step.run.share_title@.len() == 0
    &&& marks(step, TaskStatus::Parsing, "解析分享链接"@)
    &&& step.action is Load
}

/// With the link, the share is read.
pub open spec fn after_load(
    run: ImportRun,
    url: String,
    pick_code: Option<String>,
    step: Step,
) -> bool {
    &&& step.mark is None
    &&& match share_id_of(url@) {
        Some(id) => {
            &&& step.run == (ImportRun {
                stage: Stage::Parsing,
                share_id: step.run.share_id,
                pick_code,
                ..run
            })
            &&& step.run.share_id@ == id
            &&& step.action is Parse
            &&& step.action->Parse_share_id@ == id
            &&& step.action->Parse_pick_code == pick_code
        },
        None => fails(run, step, "无效的 115 分享 URL："@ + url@),
    }
}

/// With what the share holds, its size is stored. What is taken over is what stands in the share
/// itself: a folder is taken over with what it holds.
pub open spec fn after_parse(run: ImportRun, info: ShareInfo, step: Step) -> bool {
    &&& step.mark is None
    &&& step.run == (ImportRun {
        stage: Stage::Measuring,
        total_size: info.total_size,
        file_count: info.file_count,
        file_ids: step.run.file_ids,
        ..run
    })
    &&& list_view(step.run.file_ids@) == ids_of(entries_view(info.top@))
    &&& step.action is Measure
    &&& step.action->total_size == info.total_size
    &&& step.action->total_files == info.file_count as i32
}

/// A share within the limits leads to the question of space.
pub open spec fn after_measure(run: ImportRun, step: Step) -> bool {
    &&& marks(step, TaskStatus::WaitingSpace, "检查转存限制与存储空间"@)
    &&& if is_too_large(run.total_size as int, run.config) {
        fails(run, step, too_large_text(run.total_size as int, run.config))
    } else if is_too_many(run.file_count as int, run.config) {
        fails(run, step, too_many_text(run.file_count as int, run.config))
    } else {
        &&& step.run == (ImportRun { stage: Stage::CheckingSpace, ..run })
        &&& step.action is ReadQuota
    }
}

/// Without space enough the task goes on waiting; with it, a folder is created for what there is to
/// take over.
pub open spec fn after_quota(run: ImportRun, quota: QuotaInfo, step: Step) -> bool {
    if lacks_space(quota, run.total_size as int, run.config) {
        &&& step.mark is None
        &&& step.run == (ImportRun { stage: Stage::Over, ..run })
        &&& step.action is Hold
        &&& step.action->Hold_message@ == no_space_text(quota, run.total_size as int, run.config)
    } else {
        &&& marks(step, TaskStatus::Transferring, "转存文件到云盘"@)
        &&& if run.file_ids@.len() == 0 {
            fails(
                run,
                step,
                "分享解析成功但没有可转存的文件/文件夹 ID，请检查 115 API 返回结构"@,
            )
        } else {
            &&& step.run == (ImportRun { stage: Stage::CreatingFolder, ..run })
            &&& step.action is CreateFolder
            &&& step.action->parent@ == run.config.account_115_temp_folder_id@
            &&& step.action->name@ == temp_folder_name(run.task_id)
        }
    }
}

/// With the folder, the files are taken over.
pub open spec fn after_folder(run: ImportRun, folder: String, step: Step) -> bool {
    &&& step.mark is None
    &&& step.run == (ImportRun { stage: Stage::Transferring, temp_folder: folder, ..run })
    &&& step.action is Transfer
    &&& step.action->Transfer_share_id@ == run.share_id@
    &&& step.action->Transfer_pick_code == run.pick_code
    &&& step.action->Transfer_file_ids@ == run.file_ids@
    &&& step.action->Transfer_folder@ == folder@
}

/// What was taken over is listed.
pub open spec fn after_transfer(run: ImportRun, done: bool, step: Step) -> bool {
    if done {
        &&& marks(step, TaskStatus::Organizing, "整理文件结构"@)
        &&& step.run == (ImportRun { stage: Stage::Listing, ..run })
        &&& step.action is List
        &&& step.action->List_folder@ == run.temp_folder@
    } else {
        step.mark is None && fails(run, step, "文件转存失败"@)
    }
}

/// All files in what was listed are found.
pub open spec fn after_list(run: ImportRun, entries: Vec<FileEntry>, step: Step) -> bool {
    &&& step.mark is None
    &&& step.run == (ImportRun { stage: Stage::Collecting, temp_files: entries, ..run })
    &&& step.action is Collect
}

/// What the names of the files say is looked up.
pub open spec fn after_collect(run: ImportRun, files: Vec<FileEntry>, step: Step) -> bool {
    &&& step.mark is None
    &&& step.run == (ImportRun {
        stage: Stage::Matching,
        media_files: files,
        inferred: step.run.inferred,
        ..run
    })
    &&& name_view(step.run.inferred) == inferred_from(entries_view(files@))
    &&& step.action is Match
    &&& lookup_fits(step.action->Match_0, step.run.inferred, run.config)
}

/// What was found, or nothing, leads to tidying up.
pub open spec fn after_match(run: ImportRun, tmdb: Option<TmdbResult>, step: Step) -> bool {
    &&& step.mark is None
    &&& step.run == (ImportRun { stage: Stage::Organizing, tmdb, ..run })
    &&& step.action is Organize
}

/// What was kept is stored.
pub open spec fn after_organize(
    run: ImportRun,
    results: Vec<OrganizerResult>,
    step: Step,
) -> bool {
    &&& step.mark is None
    &&& step.run == (ImportRun { stage: Stage::Saving, results, ..run })
    &&& step.action is Save
}

/// What there is to share is shared, if the rate allows it.
pub open spec fn after_save(run: ImportRun, resource_id: Option<i64>, step: Step) -> bool {
    let ids = share_ids_of(results_view(run.results@), entries_view(run.temp_files@));
    &&& marks(step, TaskStatus::Sharing, "创建分享链接"@)
    &&& step.run == (ImportRun {
        stage: if ids.len() == 0 {
            Stage::Finishing
        } else {
            Stage::CheckingRate
        },
        resource_id,
        share_ids: step.run.share_ids,
        share_title: step.run.share_title,
        ..run
    })
    &&& list_view(step.run.share_ids@) == ids
    &&& step.run.share_title@ == share_title_of(run.tmdb, name_view(run.inferred), run.task_id)
    &&& if ids.len() == 0 {
        step.action is Complete
    } else {
        step.action is CheckRate
    }
}

/// Where the rate allows it and the least interval is over, the share is created; otherwise there is
/// a wait.
pub open spec fn after_rate(
    run: ImportRun,
    allowed: bool,
    since_last: Option<u64>,
    step: Step,
) -> bool {
    &&& step.mark is None
    &&& if may_share(run.config, allowed, since_last) {
        &&& step.run == (ImportRun { stage: Stage::Sharing, ..run })
        &&& step.action is CreateShare
        &&& step.action->CreateShare_file_ids@ == run.share_ids@
    } else {
        &&& step.run == (ImportRun { stage: Stage::Pausing, ..run })
        &&& step.action is Pause
        &&& is_pause(
            step.action->millis as int,
            least_pause(run.config, allowed, since_last),
            run.config.share_random_jitter_secs as int,
        )
    }
}

/// After a wait, the rate is asked for once more.
pub open spec fn after_pause(run: ImportRun, step: Step) -> bool {
    &&& step.mark is None
    &&& step.run == (ImportRun { stage: Stage::CheckingRate, ..run })
    &&& step.action is CheckRate
}

/// A share that was created is stored.
pub open spec fn after_share(run: ImportRun, share: ShareResult, step: Step) -> bool {
    &&& step.mark is None
    &&& step.run == (ImportRun { stage: Stage::SavingShare, ..run })
    &&& step.action is SaveShare
    &&& ({
        let row = step.action->SaveShare_0;
        &&& row.resource_id == run.resource_id
        &&& row.share_url == share.share_url
        &&& row.pick_code == share.pick_code
        &&& row.share_code == share.share_id
        &&& row.share_title@ == run.share_title@
        &&& row.file_count == run.share_ids@.len() as i32
        &&& row.total_size == run.total_size
    })
}

/// Whether nothing that is shared stands in the folder of the task any more: something was kept, and
/// all that was kept was moved.
pub open spec fn is_emptied(results: Seq<OrganizerResult>) -> bool {
    &&& results.len() > 0
    &&& forall|i: int| 0 <= i < results.len() ==> (#[trigger] results[i]).moved
}

/// With the share stored, the folder of the task is looked for, to be deleted: but not where
/// something that is shared may still stand in it.
pub open spec fn after_share_saved(run: ImportRun, step: Step) -> bool {
    let root = run.config.account_115_temp_folder_id@;
    if is_emptied(run.results@) && may_clean(root, run.temp_folder@, temp_folder_name(run.task_id)) {
        &&& step.mark is None
        &&& step.run == (ImportRun { stage: Stage::ListingRoot, ..run })
        &&& step.action is List
        &&& step.action->List_folder@ == root
    } else {
        completes(run, step)
    }
}

/// The folder of the task is deleted where it stands where it should.
pub open spec fn after_root(run: ImportRun, entries: Option<Vec<FileEntry>>, step: Step) -> bool {
    if entries is Some && is_listed(
        entries_view(entries->0@),
        run.temp_folder@,
        temp_folder_name(run.task_id),
    ) {
        &&& step.mark is None
        &&& step.run == (ImportRun { stage: Stage::Deleting, ..run })
        &&& step.action is Delete
        &&& step.action->Delete_folder@ == run.temp_folder@
    } else {
        completes(run, step)
    }
}

/// A failure fails the task.
pub open spec fn after_failure(run: ImportRun, reason: String, step: Step) -> bool {
    &&& step.mark is None
    &&& fails(
        run,
        step,
        if run.stage == Stage::CreatingFolder {
            "创建任务临时目录失败："@ + reason@
        } else if run.stage == Stage::Listing {
            "列举任务临时目录失败："@ + reason@
        } else {
            reason@
        },
    )
}

/// The step that an event leads to.
pub open spec fn follows(run: ImportRun, event: Event, step: Step) -> bool {
    match event {
        Event::Loaded { url, pick_code } => after_load(run, url, pick_code, step),
        Event::Parsed(info) => after_parse(run, info, step),
        Event::Measured => after_measure(run, step),
        Event::QuotaRead(quota) => after_quota(run, quota, step),
        Event::FolderCreated(folder) => after_folder(run, folder, step),
        Event::Transferred(done) => after_transfer(run, done, step),
        Event::Listed(entries) => after_list(run, entries, step),
        Event::Collected(files) => after_collect(run, files, step),
        Event::Matched(tmdb) => after_match(run, tmdb, step),
        Event::Organized(results) => after_organize(run, results, step),
        Event::Saved(id) => after_save(run, id, step),
        Event::RateChecked { allowed, since_last } => after_rate(run, allowed, since_last, step),
        Event::Paused => after_pause(run, step),
        Event::Shared(share) => after_share(run, share, step),
        Event::ShareRefused => completes(run, step),
        Event::ShareSaved => after_share_saved(run, step),
        Event::RootListed(entries) => after_root(run, entries, step),
        Event::Deleted => completes(run, step),
        Event::Finished => {
            &&& step.mark is None
            &&& step.run == (ImportRun { stage: Stage::Over, ..run })
            &&& step.action is Stop
        },
        Event::Failed(reason) => after_failure(run, reason, step),
    }
}

// ---------------------------------------------------------------------------
// The steps
// ---------------------------------------------------------------------------

/// A mark.
fn mark(status: TaskStatus, step: &str) -> (r: Option<Mark>)
    ensures
        r is Some,
        r->0.status == status,
        r->0.step@ == step@,
{
    Some(Mark { status, step: step.to_string() })
}

/// A step that fails the task.
fn fail(run: ImportRun, mark: Option<Mark>, message: String) -> (r: Step)
    ensures
        fails(run, r, message@),
        r.mark == mark,
{
    Step { run: ImportRun { stage: Stage::Over, ..run }, mark, action: Action::Fail { message } }
}

/// Whether something was kept, and all that was kept was moved.
fn all_moved(results: &Vec<OrganizerResult>) -> (r: bool)
    ensures
        r == is_emptied(results@),
{
    let mut i: usize = 0;
    while i < results.len()
        invariant
            i <= results@.len(),
            forall|j: int| 0 <= j < i ==> (#[trigger] results@[j]).moved,
        decreases results@.len() - i,
    {
        if !results[i].moved {
            return false;
        }
        i = i + 1;
    }
    results.len() > 0
}

/// A step without a mark.
fn go(run: ImportRun, action: Action) -> (r: Step)
    ensures
        r.run == run,
        r.mark is None,
        r.action == action,
{
    Step { run, mark: None, action }
}

impl ImportRun {
    /// Begins an import.
    pub fn start(task_id: i64, config: Config) -> (r: Step)
        ensures
            begins(task_id, config, r),
    {
        let run = ImportRun {
            task_id,
            config,
            stage: Stage::Loading,
            share_id: String::new(),
            pick_code: None,
            total_size: 0,
            file_count: 0,
            file_ids: Vec::new(),
            temp_folder: String::new(),
            temp_files: Vec::new(),
            media_files: Vec::new(),
            inferred: None,
            tmdb: None,
            results: Vec::new(),
            resource_id: None,
            share_ids: Vec::new(),
            share_title: String::new(),
        };
        Step { run, mark: mark(TaskStatus::Parsing, "解析分享链接"), action: Action::Load }
    }

    /// Whether an event is one that the import waits for.
    pub fn expects(&self, event: &Event) -> (r: bool)
        ensures
            r == expected(self.stage, *event),
    {
        match event {
            Event::Loaded { .. } => self.stage == Stage::Loading,
            Event::Parsed(_) => self.stage == Stage::Parsing,
            Event::Measured => self.stage == Stage::Measuring,
            Event::QuotaRead(_) => self.stage == Stage::CheckingSpace,
            Event::FolderCreated(_) => self.stage == Stage::CreatingFolder,
            Event::Transferred(_) => self.stage == Stage::Transferring,
            Event::Listed(_) => self.stage == Stage::Listing,
            Event::Collected(_) => self.stage == Stage::Collecting,
            Event::Matched(_) => self.stage == Stage::Matching,
            Event::Organized(_) => self.stage == Stage::Organizing,
            Event::Saved(_) => self.stage == Stage::Saving,
            Event::RateChecked { .. } => self.stage == Stage::CheckingRate,
            Event::Paused => self.stage == Stage::Pausing,
            Event::Shared(_) => self.stage == Stage::Sharing,
            Event::ShareRefused => self.stage == Stage::Sharing,
            Event::ShareSaved => self.stage == Stage::SavingShare,
            Event::RootListed(_) => self.stage == Stage::ListingRoot,
            Event::Deleted => self.stage == Stage::Deleting,
            Event::Finished => self.stage == Stage::Finishing,
            Event::Failed(_) => match self.stage {
                Stage::Loading | Stage::Parsing | Stage::Measuring | Stage::CheckingSpace => true,
                Stage::CreatingFolder | Stage::Transferring | Stage::Listing => true,
                Stage::Collecting | Stage::SavingShare | Stage::Finishing => true,
                _ => false,
            },
        }
    }

    /// Takes in what came of the last action, and tells what is done next.
    pub fn advance(self, event: Event) -> (r: Step)
        requires
            expected(self.stage, event),
        ensures
            follows(self, event, r),
    {
        match event {
            Event::Loaded { url, pick_code } => self.loaded(url, pick_code),
            Event::Parsed(info) => self.parsed(info),
            Event::Measured => self.measured(),
            Event::QuotaRead(quota) => self.quota_read(quota),
            Event::FolderCreated(folder) => self.folder_created(folder),
            Event::Transferred(done) => self.transferred(done),
            Event::Listed(entries) => go(
                ImportRun { stage: Stage::Collecting, temp_files: entries, ..self },
                Action::Collect,
            ),
            Event::Collected(files) => self.collected(files),
            Event::Matched(tmdb) => go(
                ImportRun { stage: Stage::Organizing, tmdb, ..self },
                Action::Organize,
            ),
            Event::Organized(results) => go(
                ImportRun { stage: Stage::Saving, results, ..self },
                Action::Save,
            ),
            Event::Saved(resource_id) => self.saved(resource_id),
            Event::RateChecked { allowed, since_last } => self.rate_checked(allowed, since_last),
            Event::Paused => go(
                ImportRun { stage: Stage::CheckingRate, ..self },
                Action::CheckRate,
            ),
            Event::Shared(share) => self.shared(share),
            Event::ShareRefused => self.complete(),
            Event::ShareSaved => self.share_saved(),
            Event::RootListed(entries) => self.root_listed(entries),
            Event::Deleted => self.complete(),
            Event::Finished => go(ImportRun { stage: Stage::Over, ..self }, Action::Stop),
            Event::Failed(reason) => self.failed(reason),
        }
    }

    fn loaded(self, url: String, pick_code: Option<String>) -> (r: Step)
        ensures
            after_load(self, url, pick_code, r),
    {
        match extract_share_id(url.as_str()) {
            Ok(id) => {
                let action = Action::Parse {
                    share_id: id.clone(),
                    pick_code: copy_option(&pick_code),
                };
                go(ImportRun { stage: Stage::Parsing, share_id: id, pick_code, ..self }, action)
            },
            Err(message) => fail(self, None, message),
        }
    }

    fn parsed(self, info: ShareInfo) -> (r: Step)
        ensures
            after_parse(self, info, r),
    {
        let file_ids = entry_ids(&info.top);
        let action = Action::Measure {
            total_size: info.total_size,
            total_files: #[verifier::truncate]
            (info.file_count as i32),
        };
        go(
            ImportRun {
                stage: Stage::Measuring,
                total_size: info.total_size,
                file_count: info.file_count,
                file_ids,
                ..self
            },
            action,
        )
    }

    fn measured(self) -> (r: Step)
        ensures
            after_measure(self, r),
    {
        let waiting = mark(TaskStatus::WaitingSpace, "检查转存限制与存储空间");
        match check_limits(self.total_size, self.file_count, &self.config) {
            Ok(_) => Step {
                run: ImportRun { stage: Stage::CheckingSpace, ..self },
                mark: waiting,
                action: Action::ReadQuota,
            },
            Err(message) => fail(self, waiting, message),
        }
    }

    fn quota_read(self, quota: QuotaInfo) -> (r: Step)
        ensures
            after_quota(self, quota, r),
    {
        match check_space(&quota, self.total_size, &self.config) {
            Ok(_) => {
                let transferring = mark(TaskStatus::Transferring, "转存文件到云盘");
                if self.file_ids.len() == 0 {
                    return fail(
                        self,
                        transferring,
                        "分享解析成功但没有可转存的文件/文件夹 ID，请检查 115 API 返回结构".to_string(),
                    );
                }
                let action = Action::CreateFolder {
                    parent: self.config.account_115_temp_folder_id.clone(),
                    name: temp_folder(self.task_id),
                };
                Step {
                    run: ImportRun { stage: Stage::CreatingFolder, ..self },
                    mark: transferring,
                    action,
                }
            },
            Err(message) => go(
                ImportRun { stage: Stage::Over, ..self },
                Action::Hold { message },
            ),
        }
    }

    fn folder_created(self, folder: String) -> (r: Step)
        ensures
            after_folder(self, folder, r),
    {
        let action = Action::Transfer {
            share_id: self.share_id.clone(),
            pick_code: copy_option(&self.pick_code),
            file_ids: copy_list(&self.file_ids),
            folder: folder.clone(),
        };
        go(ImportRun { stage: Stage::Transferring, temp_folder: folder, ..self }, action)
    }

    fn transferred(self, done: bool) -> (r: Step)
        ensures
            after_transfer(self, done, r),
    {
        if !done {
            return fail(self, None, "文件转存失败".to_string());
        }
        let action = Action::List { folder: self.temp_folder.clone() };
        Step {
            run: ImportRun { stage: Stage::Listing, ..self },
            mark: mark(TaskStatus::Organizing, "整理文件结构"),
            action,
        }
    }

    fn collected(self, files: Vec<FileEntry>) -> (r: Step)
        ensures
            after_collect(self, files, r),
    {
        let inferred = infer(&files);
        let lookup = lookup_for(&inferred, &self.config);
        go(
            ImportRun { stage: Stage::Matching, media_files: files, inferred, ..self },
            Action::Match(lookup),
        )
    }

    fn saved(self, resource_id: Option<i64>) -> (r: Step)
        ensures
            after_save(self, resource_id, r),
    {
        let share_ids = build_share_file_ids(&self.results, &self.temp_files);
        assert(list_view(share_ids@).len() == share_ids@.len());
        let title = share_title(self.tmdb.as_ref(), self.inferred.as_ref(), self.task_id);
        let none = share_ids.len() == 0;
        Step {
            run: ImportRun {
                stage: if none {
                    Stage::Finishing
                } else {
                    Stage::CheckingRate
                },
                resource_id,
                share_ids,
                share_title: title,
                ..self
            },
            mark: mark(TaskStatus::Sharing, "创建分享链接"),
            action: if none {
                Action::Complete
            } else {
                Action::CheckRate
            },
        }
    }

    fn rate_checked(self, allowed: bool, since_last: Option<u64>) -> (r: Step)
        ensures
            after_rate(self, allowed, since_last, r),
    {
        let wait: u128 = interval_wait(&self.config, since_last);
        if allowed && wait == 0 {
            let action = Action::CreateShare { file_ids: copy_list(&self.share_ids) };
            go(ImportRun { stage: Stage::Sharing, ..self }, action)
        } else {
            let least: u128 = if allowed {
                wait
            } else {
                self.config.share_min_interval_secs as u128 * 1000
            };
            let millis: u128 = pause(least, self.config.share_random_jitter_secs);
            go(ImportRun { stage: Stage::Pausing, ..self }, Action::Pause { millis })
        }
    }

    fn shared(self, share: ShareResult) -> (r: Step)
        ensures
            after_share(self, share, r),
    {
        let row = ShareRow {
            resource_id: self.resource_id,
            share_url: share.share_url,
            pick_code: share.pick_code,
            share_code: share.share_id,
            share_title: self.share_title.clone(),
            file_count: #[verifier::truncate]
            (self.share_ids.len() as i32),
            total_size: self.total_size,
        };
        go(ImportRun { stage: Stage::SavingShare, ..self }, Action::SaveShare(row))
    }

    fn share_saved(self) -> (r: Step)
        ensures
            after_share_saved(self, r),
    {
        let name = temp_folder(self.task_id);
        let root = self.config.account_115_temp_folder_id.clone();
        if all_moved(&self.results) && cleanup_allowed(
            root.as_str(),
            self.temp_folder.as_str(),
            name.as_str(),
        ) {
            go(
                ImportRun { stage: Stage::ListingRoot, ..self },
                Action::List { folder: root },
            )
        } else {
            self.complete()
        }
    }

    fn root_listed(self, entries: Option<Vec<FileEntry>>) -> (r: Step)
        ensures
            after_root(self, entries, r),
    {
        let name = temp_folder(self.task_id);
        let confirmed = match &entries {
            Some(list) => cleanup_confirmed(list, self.temp_folder.as_str(), name.as_str()),
            None => false,
        };
        if confirmed {
            let action = Action::Delete { folder: self.temp_folder.clone() };
            go(ImportRun { stage: Stage::Deleting, ..self }, action)
        } else {
            self.complete()
        }
    }

    fn complete(self) -> (r: Step)
        ensures
            completes(self, r),
    {
        go(ImportRun { stage: Stage::Finishing, ..self }, Action::Complete)
    }

    fn failed(self, reason: String) -> (r: Step)
        ensures
            after_failure(self, reason, r),
    {
        let message = match self.stage {
            Stage::CreatingFolder => cat("创建任务临时目录失败：", reason.as_str()),
            Stage::Listing => cat("列举任务临时目录失败：", reason.as_str()),
            _ => reason,
        };
        fail(self, None, message)
    }
}

// ---------------------------------------------------------------------------
// Laws
// ---------------------------------------------------------------------------

/// How far a stage is along the way.
pub open spec fn position(stage: Stage) -> int {
    match stage {
        Stage::Loading => 0,
        Stage::Parsing => 1,
        Stage::Measuring => 2,
        Stage::CheckingSpace => 3,
        Stage::CreatingFolder => 4,
        Stage::Transferring => 5,
        Stage::Listing => 6,
        Stage::Collecting => 7,
        Stage::Matching => 8,
        Stage::Organizing => 9,
        Stage::Saving => 10,
        Stage::Pausing => 10,
        Stage::CheckingRate => 11,
        Stage::Sharing => 12,
        Stage::SavingShare => 13,
        Stage::ListingRoot => 14,
        Stage::Deleting => 15,
        Stage::Finishing => 16,
        Stage::Over => 17,
    }
}

/// The status of a task while its import waits for something.
pub open spec fn status_in(stage: Stage) -> TaskStatus {
    match stage {
        Stage::Loading | Stage::Parsing | Stage::Measuring => TaskStatus::Parsing,
        Stage::CheckingSpace => TaskStatus::WaitingSpace,
        Stage::CreatingFolder | Stage::Transferring => TaskStatus::Transferring,
        Stage::Listing | Stage::Collecting | Stage::Matching | Stage::Organizing
        | Stage::Saving => TaskStatus::Organizing,
        _ => TaskStatus::Sharing,
    }
}

/// How far a status is along the way.
pub open spec fn status_order(status: TaskStatus) -> int {
    match status {
        TaskStatus::Pending => 0,
        TaskStatus::Parsing => 1,
        TaskStatus::WaitingSpace => 2,
        TaskStatus::Transferring => 3,
        TaskStatus::Organizing => 4,
        TaskStatus::Sharing => 5,
        TaskStatus::Completed => 6,
        _ => 7,
    }
}

/// Every step leads further along the way, but for a wait until a share may be created: that leads
/// one back, to the same question. So an import comes to an end, unless it waits for ever.
pub proof fn imports_end(run: ImportRun, event: Event, step: Step)
    requires
        expected(run.stage, event),
        follows(run, event, step),
    ensures
        position(run.stage) < position(step.run.stage) <= 17 || {
            &&& step.action is Pause
            &&& position(step.run.stage) == position(run.stage) - 1
        },
        step.run.task_id == run.task_id,
        step.run.config == run.config,
{
}

/// A status is marked when it changes, and only then; it is always the next one on the way from
/// `parsing` over `waiting_space`, `transferring` and `organizing` to `sharing`; and while an import
/// goes on, its task has the status of its stage.
pub proof fn statuses_come_in_order(run: ImportRun, event: Event, step: Step)
    requires
        expected(run.stage, event),
        follows(run, event, step),
    ensures
        step.mark is Some ==> status_order(step.mark->0.status) == status_order(
            status_in(run.stage),
        ) + 1,
        step.run.stage != Stage::Over ==> status_in(step.run.stage) == match step.mark {
            Some(m) => m.status,
            None => status_in(run.stage),
        },
{
}

/// An import ends in one of three ways, and in each of them only once: the task is completed, it
/// failed, or it waits for space; and it waits only where space is lacking.
pub proof fn imports_end_in_one_way(run: ImportRun, event: Event, step: Step)
    requires
        expected(run.stage, event),
        follows(run, event, step),
    ensures
        step.run.stage == Stage::Over <==> step.action is Stop || step.action is Fail
            || step.action is Hold,
        step.action is Stop <==> event is Finished,
        step.action is Complete <==> step.run.stage == Stage::Finishing,
        step.action is Hold <==> {
            &&& event is QuotaRead
            &&& lacks_space(event->QuotaRead_0, run.total_size as int, run.config)
        },
        event is Failed ==> step.action is Fail,
{
}

/// A share that cannot be created, or a folder that cannot be cleaned up, does not fail the task:
/// from the point at which the files are tidied up, only storing the share or the end can.
pub proof fn sharing_failures_are_not_fatal(run: ImportRun, event: Event, step: Step)
    requires
        expected(run.stage, event),
        follows(run, event, step),
        position(run.stage) >= position(Stage::Matching),
        step.action is Fail,
    ensures
        run.stage == Stage::SavingShare || run.stage == Stage::Finishing,
        event is Failed,
{
}

/// What is deleted after a share is the folder of the task, and nothing else: it was found under its
/// name in the folder for temporary files, and it is neither that folder nor the root folder. And
/// all that was kept was moved out of it before.
pub proof fn only_the_folder_of_the_task_is_deleted(
    run: ImportRun,
    saved: Step,
    entries: Option<Vec<FileEntry>>,
    step: Step,
)
    requires
        after_share_saved(run, saved),
        saved.run.stage == Stage::ListingRoot,
        after_root(saved.run, entries, step),
        step.action is Delete,
    ensures
        step.action->Delete_folder@ == run.temp_folder@,
        run.temp_folder@ != run.config.account_115_temp_folder_id@,
        run.temp_folder@ != "0"@,
        run.config.account_115_temp_folder_id@ != "0"@,
        entries is Some,
        is_listed(entries_view(entries->0@), run.temp_folder@, temp_folder_name(run.task_id)),
        is_emptied(run.results@),
{
}

/// Whether steps, and what came of their actions, are an import from its beginning on.
pub open spec fn is_import(
    task_id: i64,
    config: Config,
    steps: Seq<Step>,
    events: Seq<Event>,
) -> bool {
    &&& steps.len() == events.len() + 1
    &&& begins(task_id, config, steps[0])
    &&& forall|i: int|
        0 <= i < events.len() ==> expected(steps[i].run.stage, #[trigger] events[i]) && follows(
            steps[i].run,
            events[i],
            steps[i + 1],
        )
}

/// The statuses that steps mark, in order.
pub open spec fn marked(steps: Seq<Step>) -> Seq<TaskStatus>
    decreases steps.len(),
{
    if steps.len() == 0 {
        Seq::empty()
    } else {
        match steps.last().mark {
            Some(m) => marked(steps.drop_last()).push(m.status),
            None => marked(steps.drop_last()),
        }
    }
}

/// How many of the steps are waits.
pub open spec fn waits(steps: Seq<Step>) -> nat
    decreases steps.len(),
{
    if steps.len() == 0 {
        0
    } else if steps.last().action is Pause {
        waits(steps.drop_last()) + 1
    } else {
        waits(steps.drop_last())
    }
}

/// The statuses of an import on its way to the end.
pub open spec fn the_way() -> Seq<TaskStatus> {
    seq![
        TaskStatus::Parsing,
        TaskStatus::WaitingSpace,
        TaskStatus::Transferring,
        TaskStatus::Organizing,
        TaskStatus::Sharing,
    ]
}

/// Whatever comes of its actions, an import has no other statuses than those on the way, in their
/// order and without leaving one out; one that was completed had all of them; and none has more
/// than eighteen steps, and two more for each wait until a share may be created.
pub proof fn imports_follow_the_way(
    task_id: i64,
    config: Config,
    steps: Seq<Step>,
    events: Seq<Event>,
)
    requires
        is_import(task_id, config, steps, events),
    ensures
        marked(steps).len() <= 5,
        marked(steps) == the_way().take(marked(steps).len() as int),
        steps.last().run.stage != Stage::Over ==> marked(steps).len() == status_order(
            status_in(steps.last().run.stage),
        ),
        steps.last().action is Stop ==> marked(steps) == the_way(),
        steps.len() <= position(steps.last().run.stage) + 1 + 2 * waits(steps),
        position(steps.last().run.stage) + 1 <= 18,
    decreases steps.len(),
{
    let n = events.len() as int;
    let before = steps.drop_last();
    if n == 0 {
        assert(marked(before) =~= Seq::empty());
        assert(marked(steps) =~= the_way().take(1));
    } else {
        let earlier = events.drop_last();
        assert(is_import(task_id, config, before, earlier)) by {
            assert forall|i: int| 0 <= i < earlier.len() implies expected(
                before[i].run.stage,
                #[trigger] earlier[i],
            ) && follows(before[i].run, earlier[i], before[i + 1]) by {
                assert(earlier[i] == events[i]);
            }
        }
        imports_follow_the_way(task_id, config, before, earlier);
        let last = before.last();
        let event = events[n - 1];
        assert(expected(last.run.stage, event) && follows(last.run, event, steps.last()));
        imports_end(last.run, event, steps.last());
        statuses_come_in_order(last.run, event, steps.last());
        imports_end_in_one_way(last.run, event, steps.last());
        let m = marked(before).len() as int;
        if steps.last().mark is Some {
            assert(the_way()[m] == steps.last().mark->0.status);
            assert(marked(steps) =~= the_way().take(m + 1));
        }
        if steps.last().action is Stop {
            assert(the_way().take(5) =~= the_way());
        }
    }
}

/// What holds of an import from the question of space on.
proof fn lemma_within_limits(
    task_id: i64,
    config: Config,
    steps: Seq<Step>,
    events: Seq<Event>,
    i: int,
) -> (j: int)
    requires
        is_import(task_id, config, steps, events),
        0 <= i < steps.len(),
        steps[i].run.stage != Stage::Over,
    ensures
        steps[i].run.config == config,
        position(steps[i].run.stage) >= position(Stage::CheckingSpace) ==> {
            &&& !is_too_large(steps[i].run.total_size as int, config)
            &&& !is_too_many(steps[i].run.file_count as int, config)
        },
        position(steps[i].run.stage) >= position(Stage::CreatingFolder) ==> {
            &&& 0 <= j < i
            &&& events[j] is QuotaRead
            &&& !lacks_space(events[j]->QuotaRead_0, steps[i].run.total_size as int, config)
            &&& steps[i].run.file_ids@.len() > 0
        },
    decreases i,
{
    if i == 0 {
        0
    } else {
        let run = steps[i - 1].run;
        let event = events[i - 1];
        assert(expected(run.stage, event) && follows(run, event, steps[i]));
        let j = lemma_within_limits(task_id, config, steps, events, i - 1);
        if event is QuotaRead {
            i - 1
        } else {
            j
        }
    }
}

/// Nothing is taken over from a share that is too large or has too many files, or for which space is
/// lacking: before files are taken over, the share was found to be within the limits, and the drive
/// told of space enough for it. And something is taken over then.
pub proof fn limits_are_kept(
    task_id: i64,
    config: Config,
    steps: Seq<Step>,
    events: Seq<Event>,
    i: int,
) -> (j: int)
    requires
        is_import(task_id, config, steps, events),
        0 <= i < steps.len(),
        steps[i].action is Transfer,
    ensures
        !is_too_large(steps[i].run.total_size as int, config),
        !is_too_many(steps[i].run.file_count as int, config),
        0 <= j < i,
        events[j] is QuotaRead,
        !lacks_space(events[j]->QuotaRead_0, steps[i].run.total_size as int, config),
        steps[i].action->Transfer_file_ids@.len() > 0,
{
    if i > 0 {
        assert(expected(steps[i - 1].run.stage, events[i - 1]) && follows(
            steps[i - 1].run,
            events[i - 1],
            steps[i],
        ));
    }
    lemma_within_limits(task_id, config, steps, events, i)
}

/// No share is created but where the rate was just found to allow it, and the least interval since
/// the last share to be over; however often the import had to wait.
pub proof fn shares_keep_to_the_rate(
    task_id: i64,
    config: Config,
    steps: Seq<Step>,
    events: Seq<Event>,
    i: int,
)
    requires
        is_import(task_id, config, steps, events),
        0 <= i < steps.len(),
        steps[i].action is CreateShare,
    ensures
        i > 0,
        events[i - 1] is RateChecked,
        events[i - 1]->allowed,
        interval_left(config.share_min_interval_secs as int, events[i - 1]->since_last) == 0,
{
    if i > 0 {
        assert(expected(steps[i - 1].run.stage, events[i - 1]) && follows(
            steps[i - 1].run,
            events[i - 1],
            steps[i],
        ));
        lemma_within_limits(task_id, config, steps, events, i);
    }
}

} // verus!
