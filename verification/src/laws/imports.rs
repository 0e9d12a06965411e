//! Laws of the course of an import: what follows on what, and what is handed on.

use vstd::prelude::*;

#[allow(unused_imports)]
use crate::adapters::adapter_115::entries_view;
#[allow(unused_imports)]
use crate::config::Config;
#[allow(unused_imports)]
use crate::db::models::TaskStatus;
#[allow(unused_imports)]
use crate::laws::texts::{blank_texts_vanish, is_blank};
#[allow(unused_imports)]
use crate::services::organizer::results_view;
#[allow(unused_imports)]
use crate::share_link::share_id_of;
#[allow(unused_imports)]
use crate::text::list_view;
#[allow(unused_imports)]
use crate::text::number::decimal_int;
#[allow(unused_imports)]
use crate::workers::import_plan::{
    ids_of, inferred_from, is_listed, is_too_large, lookup_fits, name_view, no_space_text,
    share_ids_of, share_title_of, too_large_text, too_many_text,
};
#[allow(unused_imports)]
use crate::workers::import_worker::{
    begins, expected, follows, is_import, next_turn, should_process, Action, Event, ImportRun, Stage,
    Step, Turn,
};

verus! {

/// What an import knows from something that happened.
pub open spec fn remembers(run: ImportRun, event: Event) -> bool {
    match event {
        Event::Loaded { url, pick_code } => {
            &&& share_id_of(url@) == Some(run.share_id@)
            &&& run.pick_code == pick_code
        },
        Event::Parsed(info) => {
            &&& run.total_size == info.total_size
            &&& run.file_count == info.file_count
            &&& list_view(run.file_ids@) == ids_of(entries_view(info.top@))
        },
        Event::FolderCreated(folder) => run.temp_folder@ == folder@,
        Event::Listed(entries) => run.temp_files@ == entries@,
        Event::Collected(files) => {
            &&& run.media_files@ == files@
            &&& name_view(run.inferred) == inferred_from(entries_view(files@))
        },
        Event::Matched(entry) => run.tmdb == entry,
        Event::Organized(results) => run.results@ == results@,
        Event::Saved(id) => {
            &&& run.resource_id == id
            &&& list_view(run.share_ids@) == share_ids_of(
                results_view(run.results@),
                entries_view(run.temp_files@),
            )
            &&& run.share_title@ == share_title_of(run.tmdb, name_view(run.inferred), run.task_id)
        },
        _ => true,
    }
}

/// How far an import is come; asking for the rate and waiting take turns at one place.
spec fn place(stage: Stage) -> int {
    match stage {
        Stage::Loading => 0,
        Stage::Parsing => 1,
        Stage::Measuring => 2,
        Stage::CheckingSpace => 3,
        Stage::CreatingFolder => 4,
        Stage::Transferring => 5,
        Stage::Listing => 6,
        Stage::Collecting => 7,
        Stage::Matching => 8,
        Stage::Organizing => 9,
        Stage::Saving => 10,
        Stage::CheckingRate => 11,
        Stage::Pausing => 11,
        Stage::Sharing => 12,
        Stage::SavingShare => 13,
        Stage::ListingRoot => 14,
        Stage::Deleting => 15,
        Stage::Finishing => 16,
        Stage::Over => 17,
    }
}

/// Where an import is when something happens that it remembers.
spec fn place_of(event: Event) -> int {
    match event {
        Event::Loaded { .. } => 0,
        Event::Parsed(_) => 1,
        Event::FolderCreated(_) => 4,
        Event::Listed(_) => 6,
        Event::Collected(_) => 7,
        Event::Matched(_) => 8,
        Event::Organized(_) => 9,
        Event::Saved(_) => 10,
        _ => -1,
    }
}

/// One step keeps what is known, and adds what has happened.
proof fn lemma_step_remembers(run: ImportRun, event: Event, step: Step, earlier: Event)
    requires
        expected(run.stage, event),
        follows(run, event, step),
        step.run.stage != Stage::Over,
    ensures
        remembers(step.run, event),
        place(run.stage) <= place(step.run.stage),
        place_of(event) < place(step.run.stage),
        remembers(run, earlier) && place_of(earlier) < place(run.stage) ==> remembers(
            step.run,
            earlier,
        ),
        step.run.task_id == run.task_id,
        step.run.config == run.config,
        run.stage != Stage::Over,
{
}

/// The stage before one that is not over is not over.
proof fn lemma_not_over(run: ImportRun, event: Event, step: Step)
    requires
        expected(run.stage, event),
        follows(run, event, step),
    ensures
        run.stage != Stage::Over,
{
}

/// An import forgets nothing: as long as it goes on, it knows the share and the code that were
/// loaded, the size, the number of files and the top identifiers that were read, the folder that
/// was created, what was listed, found, matched, tidied up and stored, and what is to be shared
/// under which title.
pub proof fn imports_forget_nothing(
    task_id: i64,
    config: Config,
    steps: Seq<Step>,
    events: Seq<Event>,
    i: int,
    j: int,
)
    requires
        is_import(task_id, config, steps, events),
        0 <= j < i < steps.len(),
        steps[i].run.stage != Stage::Over,
    ensures
        remembers(steps[i].run, events[j]),
        steps[i].run.task_id == task_id,
        steps[i].run.config == config,
{
    lemma_remembered(task_id, config, steps, events, i, j);
}

/// What is remembered, and where the import is.
proof fn lemma_remembered(
    task_id: i64,
    config: Config,
    steps: Seq<Step>,
    events: Seq<Event>,
    i: int,
    j: int,
)
    requires
        is_import(task_id, config, steps, events),
        0 <= i < steps.len(),
        steps[i].run.stage != Stage::Over,
    ensures
        0 <= j < i ==> remembers(steps[i].run, events[j]) && place_of(events[j]) < place(
            steps[i].run.stage,
        ),
        steps[i].run.task_id == task_id,
        steps[i].run.config == config,
    decreases i,
{
    if i > 0 {
        let event = events[i - 1];
        let before = steps[i - 1];
        assert(expected(before.run.stage, event) && follows(before.run, event, steps[i]));
        lemma_not_over(before.run, event, steps[i]);
        lemma_remembered(task_id, config, steps, events, i - 1, j);
        lemma_step_remembers(before.run, event, steps[i], events[j]);
    }
}

/// What is done is done with what is known: the share is read with its code; its files are taken
/// over, all of those that stand at its top, into the folder that was created for the task in the
/// folder for temporary files; this folder is what is listed then; what is shared is what was
/// chosen for it; and what is stored of the share is its link with its codes, the resource, the
/// title, the number of what is shared and the size.
pub proof fn actions_are_done_with_what_is_known(run: ImportRun, event: Event, step: Step)
    requires
        expected(run.stage, event),
        follows(run, event, step),
    ensures
        step.action matches Action::Parse { share_id, pick_code } ==> share_id@
            == step.run.share_id@ && pick_code == step.run.pick_code,
        step.action matches Action::Measure { total_size, total_files } ==> total_size
            == step.run.total_size && total_files == step.run.file_count as i32,
        step.action matches Action::CreateFolder { parent, name } ==> parent@
            == step.run.config.account_115_temp_folder_id@ && name@ == "hidden-task-"@
            + decimal_int(step.run.task_id as int),
        step.action matches Action::Transfer { share_id, pick_code, file_ids, folder } ==> share_id@
            == step.run.share_id@ && pick_code == step.run.pick_code && file_ids@
            == step.run.file_ids@ && folder@ == step.run.temp_folder@,
        step.action matches Action::List { folder } ==> folder@ == if event is Transferred {
            step.run.temp_folder@
        } else {
            step.run.config.account_115_temp_folder_id@
        },
        step.action matches Action::Match(lookup) ==> lookup_fits(
            lookup,
            step.run.inferred,
            step.run.config,
        ),
        step.action matches Action::CreateShare { file_ids } ==> file_ids@ == step.run.share_ids@,
        step.action matches Action::Delete { folder } ==> folder@ == step.run.temp_folder@,
        step.action matches Action::SaveShare(row) ==> (event matches Event::Shared(share)
            && row.share_url == share.share_url && row.pick_code == share.pick_code
            && row.share_code == share.share_id && row.resource_id == step.run.resource_id
            && row.share_title@ == step.run.share_title@ && row.file_count
            == step.run.share_ids@.len() as i32 && row.total_size == step.run.total_size),
{
}

/// What follows on what. Where nothing is to be decided, each thing that is done is followed by the
/// next one. A link without a share, a share that is too large or has too many or no files, and a
/// transfer that did not succeed end the import as failed; a lack of space has it wait. Where there
/// is nothing to share it is completed; a refused share does not fail it either.
pub proof fn each_event_has_its_action(run: ImportRun, event: Event, step: Step)
    requires
        expected(run.stage, event),
        follows(run, event, step),
    ensures
        event matches Event::Loaded { url, pick_code } ==> if share_id_of(url@) is Some {
            step.action is Parse
        } else {
            step.action is Fail
        },
        event is Parsed ==> step.action is Measure,
        event is Measured ==> if (run.config.transfer_max_size_gb > 0 && run.total_size
            > run.config.transfer_max_size_gb * 1073741824) || (run.config.transfer_max_file_count
            > 0 && run.file_count > run.config.transfer_max_file_count) {
            step.action is Fail
        } else {
            step.action is ReadQuota
        },
        event matches Event::QuotaRead(quota) ==> if quota.total > 0 && quota.free - run.total_size
            < run.config.transfer_min_free_space_gb * 1073741824 {
            step.action is Hold
        } else if run.file_ids@.len() == 0 {
            step.action is Fail
        } else {
            step.action is CreateFolder
        },
        event is FolderCreated ==> step.action is Transfer,
        event matches Event::Transferred(done) ==> if done {
            step.action is List
        } else {
            step.action is Fail
        },
        event is Listed ==> step.action is Collect,
        event is Collected ==> step.action is Match,
        event is Matched ==> step.action is Organize,
        event is Organized ==> step.action is Save,
        event is Saved ==> if step.run.share_ids@.len() == 0 {
            step.action is Complete
        } else {
            step.action is CheckRate
        },
        event matches Event::RateChecked { allowed, since_last } ==> if allowed && (
        since_last matches Some(ms) ==> ms >= run.config.share_min_interval_secs * 1000) {
            step.action is CreateShare
        } else {
            step.action is Pause
        },
        event is Paused ==> step.action is CheckRate,
        event is Shared ==> step.action is SaveShare,
        event is ShareRefused ==> step.action is Complete,
        event is Deleted ==> step.action is Complete,
        event is Finished ==> step.action is Stop,
        event is Failed ==> step.action is Fail,
{
    assert(run.config.transfer_max_size_gb * 1024 * 1024 * 1024 == run.config.transfer_max_size_gb
        * 1073741824) by (nonlinear_arith);
    assert(run.config.transfer_min_free_space_gb * 1024 * 1024 * 1024
        == run.config.transfer_min_free_space_gb * 1073741824) by (nonlinear_arith);
    if event is Saved {
        assert(list_view(step.run.share_ids@).len() == step.run.share_ids@.len());
    }
}

/// The folder of the task goes exactly if all kept files were moved out of it and at least one was,
/// it may go, and it is found under its name in the folder for temporary files; otherwise the task
/// is completed without that.
pub proof fn emptied_folders_are_deleted(run: ImportRun, event: Event, step: Step)
    requires
        expected(run.stage, event),
        follows(run, event, step),
    ensures
        ({
            let root = run.config.account_115_temp_folder_id@;
            let folder = run.temp_folder@;
            let name = "hidden-task-"@ + decimal_int(run.task_id as int);
            &&& event is ShareSaved ==> if run.results@.len() > 0 && (forall|k: int|
                0 <= k < run.results@.len() ==> (#[trigger] run.results@[k]).moved) && !is_blank(
                root,
            ) && !is_blank(folder) && root != "0"@ && folder != "0"@ && folder != root {
                step.action is List
            } else {
                step.action is Complete
            }
            &&& event matches Event::RootListed(entries) ==> if entries is Some && is_listed(
                entries_view(entries->0@),
                folder,
                name,
            ) {
                step.action is Delete
            } else {
                step.action is Complete
            }
        }),
{
    blank_texts_vanish(run.config.account_115_temp_folder_id@);
    blank_texts_vanish(run.temp_folder@);
    crate::laws::records::tasks_have_folders_of_their_own(run.task_id, run.task_id);
}

/// A state is stored of the task when a new part of the work begins, and no other one: it parses,
/// looks for space, transfers, tidies up, shares.
pub proof fn parts_of_the_work_are_marked(run: ImportRun, event: Event, step: Step)
    requires
        expected(run.stage, event),
        follows(run, event, step),
    ensures
        event is Measured ==> (step.mark matches Some(m) && m.status == TaskStatus::WaitingSpace),
        event is QuotaRead && !(step.action is Hold) ==> (step.mark matches Some(m) && m.status
            == TaskStatus::Transferring),
        event matches Event::Transferred(done) ==> done ==> (step.mark matches Some(m) && m.status
            == TaskStatus::Organizing),
        event is Saved ==> (step.mark matches Some(m) && m.status == TaskStatus::Sharing),
        step.mark is Some ==> event is Measured || event is QuotaRead || event is Transferred
            || event is Saved,
        step.action is Hold ==> step.mark is None,
{
}

/// Each stage waits for what it has asked for. What fails is told as a failure where that ends the
/// import; tidying up, storing, sharing and deleting do not.
pub proof fn each_stage_waits_for_its_event(stage: Stage, reason: String)
    ensures
        expected(stage, Event::Failed(reason)) <==> stage is Loading || stage is Parsing
            || stage is Measuring || stage is CheckingSpace || stage is CreatingFolder
            || stage is Transferring || stage is Listing || stage is Collecting
            || stage is SavingShare || stage is Finishing,
        expected(stage, Event::Measured) <==> stage is Measuring,
        expected(stage, Event::Paused) <==> stage is Pausing,
        expected(stage, Event::ShareRefused) <==> stage is Sharing,
        expected(stage, Event::ShareSaved) <==> stage is SavingShare,
        expected(stage, Event::Deleted) <==> stage is Deleting,
        expected(stage, Event::Finished) <==> stage is Finishing,
        forall|e: Event| stage is Over ==> !#[trigger] expected(stage, e),
        forall|e: Event| #[trigger]
            expected(stage, e) && !(e is Failed) ==> {
                &&& stage is Loading <==> e is Loaded
                &&& stage is Parsing <==> e is Parsed
                &&& stage is CheckingSpace <==> e is QuotaRead
                &&& stage is CreatingFolder <==> e is FolderCreated
                &&& stage is Transferring <==> e is Transferred
                &&& stage is Listing <==> e is Listed
                &&& stage is Collecting <==> e is Collected
                &&& stage is Matching <==> e is Matched
                &&& stage is Organizing <==> e is Organized
                &&& stage is Saving <==> e is Saved
                &&& stage is CheckingRate <==> e is RateChecked
                &&& stage is Sharing <==> e is Shared || e is ShareRefused
                &&& stage is ListingRoot <==> e is RootListed
            },
{
}

/// Why an import failed is told whole.
pub proof fn reasons_are_told_whole(run: ImportRun, reason: String, step: Step)
    requires
        expected(run.stage, Event::Failed(reason)),
        follows(run, Event::Failed(reason), step),
    ensures
        step.action matches Action::Fail { message } && (exists|front: Seq<char>|
            message@ == #[trigger] (front + reason@)),
        run.stage is CreatingFolder ==> step.action->Fail_message@
            == "创建任务临时目录失败："@ + reason@,
        run.stage is Listing ==> step.action->Fail_message@ == "列举任务临时目录失败："@
            + reason@,
        !(run.stage is CreatingFolder) && !(run.stage is Listing) ==> step.action->Fail_message@
            == reason@,
{
    let none = Seq::<char>::empty();
    assert(none + reason@ =~= reason@);
}

/// The queue is looked at again after three seconds where it is empty; a task that comes out of it
/// is imported exactly if it still waits.
pub proof fn waiting_tasks_are_imported(
    popped: Option<i64>,
    status: Option<&str>,
    turn: Turn,
    process: bool,
)
    requires
        call_ensures(next_turn, (popped,), turn),
        call_ensures(should_process, (status,), process),
    ensures
        popped matches Some(id) ==> (turn matches Turn::Look { task_id } && task_id == id),
        popped is None ==> (turn matches Turn::Idle { secs } && secs == 3),
        process <==> status is Some && status->0@ == "pending"@,
{
}

/// What is shown of the task with each state.
pub proof fn states_are_shown_in_words(
    task_id: i64,
    config: Config,
    first: Step,
    run: ImportRun,
    event: Event,
    step: Step,
)
    requires
        begins(task_id, config, first),
        expected(run.stage, event),
        follows(run, event, step),
    ensures
        first.mark matches Some(m) && m.status == TaskStatus::Parsing && m.step@ == "解析分享链接"@,
        step.mark matches Some(m) ==> {
            &&& m.status == TaskStatus::WaitingSpace ==> m.step@ == "检查转存限制与存储空间"@
            &&& m.status == TaskStatus::Transferring ==> m.step@ == "转存文件到云盘"@
            &&& m.status == TaskStatus::Organizing ==> m.step@ == "整理文件结构"@
            &&& m.status == TaskStatus::Sharing ==> m.step@ == "创建分享链接"@
        },
{
}

/// Why an import ends that nothing else has failed: the link tells no share, the share is over a
/// limit, there is no space for it, it holds nothing, or it could not be transferred.
pub proof fn ends_are_told_why(run: ImportRun, event: Event, step: Step)
    requires
        expected(run.stage, event),
        follows(run, event, step),
    ensures
        event matches Event::Loaded { url, pick_code } ==> (step.action matches Action::Fail {
            message,
        } ==> message@ == "无效的 115 分享 URL："@ + url@),
        event is Measured ==> (step.action matches Action::Fail { message } ==> if is_too_large(
            run.total_size as int,
            run.config,
        ) {
            message@ == too_large_text(run.total_size as int, run.config)
        } else {
            message@ == too_many_text(run.file_count as int, run.config)
        }),
        event matches Event::QuotaRead(quota) ==> {
            &&& step.action matches Action::Hold { message } ==> message@ == no_space_text(
                quota,
                run.total_size as int,
                run.config,
            )
            &&& step.action matches Action::Fail { message } ==> message@
                == "分享解析成功但没有可转存的文件/文件夹 ID，请检查 115 API 返回结构"@
        },
        event is Transferred ==> (step.action matches Action::Fail { message } ==> message@
            == "文件转存失败"@),
{
}

} // verus!
