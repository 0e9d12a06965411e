use hidden::adapters::adapter_115::{FileEntry, QuotaInfo, ShareInfo, ShareResult};
use hidden::config::Config;
use hidden::db::models::{ShareStatus, TaskStatus};
use hidden::services::organizer::OrganizerResult;
use hidden::services::tmdb::{TmdbMovie, TmdbResult, TmdbTv};
use hidden::text_map::TextMap;
use hidden::utils::ParsedFileName;
use hidden::workers::import_plan::{
    build_display_title, build_share_file_ids, check_limits, check_space, cleanup_allowed,
    cleanup_confirmed, entry_ids, extract_share_id, file_row, first_series, first_titled, infer,
    media_type, push_unique_id, resource_file_rows, resource_row, row_for, Lookup,
};
use hidden::workers::import_worker::{
    next_turn, should_process, Action, Event, ImportRun, Stage, Step, Turn,
};
use hidden::workers::schedule::{
    cleanup_root, finished_statuses, is_nearly_empty, run_quota_check, run_temp_cleanup,
    status_after_check,
};
use hidden::workers::walk::Walk;

fn config() -> Config {
    let mut env = TextMap::new();
    for key in ["DATABASE_URL", "ACCOUNT_115_COOKIE", "JWT_SECRET"] {
        env.insert(key.to_string(), "x".to_string());
    }
    env.insert("ACCOUNT_115_TEMP_FOLDER_ID".to_string(), "100".to_string());
    env.insert("TMDB_API_KEY".to_string(), "key".to_string());
    Config::from_env(&env).unwrap()
}

fn entry(name: &str, id: Option<&str>, is_dir: bool) -> FileEntry {
    FileEntry {
        name: name.to_string(),
        size: 7,
        path: name.to_string(),
        is_dir,
        file_id: id.map(|t| t.to_string()),
        pick_code: None,
        folder_id: "t".to_string(),
    }
}

fn kept(id: &str, name: &str, folder: &str) -> OrganizerResult {
    OrganizerResult {
        file_id: id.to_string(),
        final_name: name.to_string(),
        folder_id: folder.to_string(),
        moved: true,
    }
}

fn film() -> TmdbResult {
    TmdbResult::Movie(TmdbMovie {
        id: 27205,
        title: "Inception".to_string(),
        original_title: "Inception".to_string(),
        release_date: Some("2010-07-16".to_string()),
        overview: None,
        poster_path: Some("/p.jpg".to_string()),
        backdrop_path: None,
        confidence: 1,
    })
}

fn share_info(size: i64, count: usize) -> ShareInfo {
    ShareInfo {
        share_id: "abc".to_string(),
        total_size: size,
        file_count: count,
        top: vec![entry("Inception", Some("11"), true), entry("lost", None, false)],
        tree: vec![
            entry("Inception", Some("11"), true),
            entry("lost", None, false),
            entry("Inception.2010.mkv", Some("14"), false),
        ],
    }
}

fn rate(allowed: bool, since_last: Option<u64>) -> Event {
    Event::RateChecked { allowed, since_last }
}

fn status_of(step: &Step) -> Option<TaskStatus> {
    step.mark.as_ref().map(|m| m.status)
}

fn failure(step: &Step) -> String {
    match &step.action {
        Action::Fail { message } => message.clone(),
        _ => panic!("the import goes on"),
    }
}

fn measured(config: Config, size: i64, count: usize) -> Step {
    let step = ImportRun::start(5, config);
    assert_eq!(status_of(&step), Some(TaskStatus::Parsing));
    let step = step.run.advance(Event::Loaded {
        url: "https://115.com/s/abc?x".to_string(),
        pick_code: Some("xy".to_string()),
    });
    assert!(matches!(&step.action, Action::Parse { share_id, .. } if share_id == "abc"));
    let step = step.run.advance(Event::Parsed(share_info(size, count)));
    assert!(matches!(step.action, Action::Measure { total_size, total_files }
        if total_size == size && total_files == count as i32));
    step.run.advance(Event::Measured)
}

fn transferred(config: Config) -> Step {
    let step = measured(config, 1000, 1);
    assert_eq!(status_of(&step), Some(TaskStatus::WaitingSpace));
    assert!(matches!(step.action, Action::ReadQuota));
    let step = step.run.advance(Event::QuotaRead(QuotaInfo { total: 0, used: 0, free: 0 }));
    assert_eq!(status_of(&step), Some(TaskStatus::Transferring));
    assert!(matches!(&step.action, Action::CreateFolder { parent, name }
        if parent == "100" && name == "hidden-task-5"));
    let step = step.run.advance(Event::FolderCreated("200".to_string()));
    match &step.action {
        Action::Transfer { share_id, pick_code, file_ids, folder } => {
            assert_eq!(share_id, "abc");
            assert_eq!(pick_code.as_deref(), Some("xy"));
            assert_eq!(file_ids, &["11"]);
            assert_eq!(folder, "200");
        }
        _ => panic!("nothing is taken over"),
    }
    assert_eq!(step.run.temp_folder, "200");
    step.run.advance(Event::Transferred(true))
}

fn saved(config: Config, results: Vec<OrganizerResult>, tmdb: Option<TmdbResult>) -> Step {
    let step = transferred(config);
    assert_eq!(status_of(&step), Some(TaskStatus::Organizing));
    assert!(matches!(&step.action, Action::List { folder } if folder == "200"));
    let step = step.run.advance(Event::Listed(vec![entry("Inception", Some("12"), true)]));
    assert!(matches!(step.action, Action::Collect));
    let step = step.run.advance(Event::Collected(vec![entry("Inception.2010.mkv", Some("13"), false)]));
    assert!(matches!(&step.action, Action::Match(Lookup::Anything { title, year })
        if title == "Inception" && *year == Some(2010)));
    let step = step.run.advance(Event::Matched(tmdb));
    assert!(matches!(step.action, Action::Organize));
    let step = step.run.advance(Event::Organized(results));
    assert!(matches!(step.action, Action::Save));
    step.run.advance(Event::Saved(Some(3)))
}

fn new_share() -> ShareResult {
    ShareResult {
        share_url: "https://115.com/s/new".to_string(),
        pick_code: "qq".to_string(),
        share_id: "new".to_string(),
    }
}

#[test]
fn imports_run_from_the_link_to_the_end() {
    let step = saved(config(), vec![kept("13", "Inception (2010).mkv", "300")], Some(film()));
    assert_eq!(status_of(&step), Some(TaskStatus::Sharing));
    assert!(matches!(step.action, Action::CheckRate));
    assert_eq!(step.run.share_ids, vec!["300", "13"]);
    assert_eq!(step.run.share_title, "Inception (2010)");
    let step = step.run.advance(rate(true, None));
    assert!(matches!(&step.action, Action::CreateShare { file_ids }
        if file_ids.as_slice() == ["300", "13"]));
    let step = step.run.advance(Event::Shared(new_share()));
    match &step.action {
        Action::SaveShare(row) => {
            assert_eq!(row.resource_id, Some(3));
            assert_eq!(row.share_url, "https://115.com/s/new");
            assert_eq!(row.pick_code, "qq");
            assert_eq!(row.share_code, "new");
            assert_eq!(row.share_title, "Inception (2010)");
            assert_eq!(row.file_count, 2);
            assert_eq!(row.total_size, 1000);
        }
        _ => panic!("the share is not stored"),
    }
    let step = step.run.advance(Event::ShareSaved);
    assert!(matches!(&step.action, Action::List { folder } if folder == "100"));
    assert_eq!(step.run.stage, Stage::ListingRoot);
    let step = step.run.advance(Event::RootListed(Some(vec![
        entry("hidden-task-4", Some("199"), true),
        entry("hidden-task-5", Some("200"), true),
    ])));
    assert!(matches!(&step.action, Action::Delete { folder } if folder == "200"));
    let step = step.run.advance(Event::Deleted);
    assert!(matches!(step.action, Action::Complete));
    let step = step.run.advance(Event::Finished);
    assert!(matches!(step.action, Action::Stop));
    assert_eq!(step.run.stage, Stage::Over);
}

#[test]
fn links_without_a_share_fail() {
    let step = ImportRun::start(5, config());
    let step = step.run.advance(Event::Loaded {
        url: "https://115.com/".to_string(),
        pick_code: None,
    });
    assert_eq!(failure(&step), "无效的 115 分享 URL：https://115.com/");
}

#[test]
fn limits_fail_imports() {
    let gb = 1024i64 * 1024 * 1024;
    let step = measured(config(), 80 * gb + 1, 1);
    assert_eq!(status_of(&step), Some(TaskStatus::WaitingSpace));
    assert_eq!(
        failure(&step),
        "分享文件总大小超出单次转存上限：85899345921 bytes > 85899345920 bytes（80 GB）"
    );
    let step = measured(config(), 1, 201);
    assert_eq!(failure(&step), "分享文件数量超出单次转存上限：201 > 200");
    let mut unlimited = config();
    unlimited.transfer_max_size_gb = 0;
    unlimited.transfer_max_file_count = 0;
    assert!(matches!(measured(unlimited, i64::MAX, 9999).action, Action::ReadQuota));
    assert!(check_limits(80 * gb, 200, &config()).is_ok());
    assert!(check_limits(-1, 0, &config()).is_ok());
}

#[test]
fn imports_wait_for_space() {
    let gb = 1024i64 * 1024 * 1024;
    let step = measured(config(), gb, 1);
    let step = step.run.advance(Event::QuotaRead(QuotaInfo {
        total: 100 * gb,
        used: 80 * gb,
        free: 21 * gb - 1,
    }));
    assert!(step.mark.is_none());
    assert_eq!(step.run.stage, Stage::Over);
    match &step.action {
        Action::Hold { message } => assert_eq!(
            message,
            "存储空间不足：剩余 22548578303 bytes，需要转存 1073741824 bytes 并保留 21474836480 bytes 余量"
        ),
        _ => panic!("there is no space"),
    }
    let enough = QuotaInfo { total: 100 * gb, used: 79 * gb, free: 21 * gb };
    assert!(check_space(&enough, gb, &config()).is_ok());
}

#[test]
fn shares_without_identifiers_fail() {
    let step = ImportRun::start(5, config());
    let step = step.run.advance(Event::Loaded {
        url: "https://115.com/s/abc".to_string(),
        pick_code: None,
    });
    let mut info = share_info(1, 1);
    info.top = vec![entry("lost", None, false)];
    let step = step.run.advance(Event::Parsed(info));
    let step = step.run.advance(Event::Measured);
    let step = step.run.advance(Event::QuotaRead(QuotaInfo { total: 0, used: 0, free: 0 }));
    assert_eq!(status_of(&step), Some(TaskStatus::Transferring));
    assert_eq!(
        failure(&step),
        "分享解析成功但没有可转存的文件/文件夹 ID，请检查 115 API 返回结构"
    );
}

#[test]
fn failures_tell_what_failed() {
    let step = ImportRun::start(5, config());
    assert_eq!(failure(&step.run.advance(Event::Failed("down".to_string()))), "down");
    let step = measured(config(), 1, 1);
    let step = step.run.advance(Event::QuotaRead(QuotaInfo { total: 0, used: 0, free: 0 }));
    let step = step.run.advance(Event::Failed("full".to_string()));
    assert_eq!(failure(&step), "创建任务临时目录失败：full");
    let step = transferred(config());
    let step = step.run.advance(Event::Failed("gone".to_string()));
    assert_eq!(failure(&step), "列举任务临时目录失败：gone");
}

#[test]
fn refused_transfers_fail() {
    let step = measured(config(), 1, 1);
    let step = step.run.advance(Event::QuotaRead(QuotaInfo { total: 0, used: 0, free: 0 }));
    let step = step.run.advance(Event::FolderCreated("200".to_string()));
    let step = step.run.advance(Event::Transferred(false));
    assert_eq!(failure(&step), "文件转存失败");
}

#[test]
fn shares_that_cannot_be_created_do_not_fail_imports() {
    let step = saved(config(), vec![], None);
    assert_eq!(step.run.share_ids, vec!["12"]);
    let step = step.run.advance(rate(true, Some(30_000)));
    assert!(matches!(step.action, Action::CreateShare { .. }));
    let step = step.run.advance(Event::ShareRefused);
    assert!(matches!(step.action, Action::Complete));
}

#[test]
fn imports_wait_until_a_share_may_be_created() {
    let mut step = saved(config(), vec![], None);
    for (event, least) in [
        (rate(false, None), 30_000),
        (rate(false, Some(29_000)), 30_000),
        (rate(true, Some(10_000)), 20_000),
    ] {
        step = step.run.advance(event);
        match step.action {
            Action::Pause { millis } => assert!(least <= millis && millis <= least + 15_000),
            _ => panic!("no share may be created yet"),
        }
        step = step.run.advance(Event::Paused);
        assert!(matches!(step.action, Action::CheckRate));
    }
    let step = step.run.advance(rate(true, Some(31_000)));
    assert!(matches!(step.action, Action::CreateShare { .. }));
}

#[test]
fn nothing_is_cleaned_up_where_nothing_was_kept() {
    let step = saved(config(), vec![], None);
    let step = step.run.advance(rate(true, None));
    let step = step.run.advance(Event::Shared(new_share()));
    let step = step.run.advance(Event::ShareSaved);
    assert!(matches!(step.action, Action::Complete));
}

#[test]
fn nothing_is_cleaned_up_where_a_kept_file_stayed() {
    let finished = |results: Vec<OrganizerResult>| {
        let mut run = ImportRun::start(5, config()).run;
        run.stage = Stage::SavingShare;
        run.temp_folder = "200".to_string();
        run.results = results;
        run.advance(Event::ShareSaved).action
    };
    let stayed = || OrganizerResult { moved: false, ..kept("2", "b", "200") };
    assert!(matches!(finished(vec![kept("1", "a", "9")]), Action::List { .. }));
    assert!(matches!(finished(vec![kept("1", "a", "0")]), Action::List { .. }));
    assert!(matches!(finished(vec![kept("1", "a", "9"), stayed()]), Action::Complete));
    assert!(matches!(finished(vec![stayed()]), Action::Complete));
}

#[test]
fn nothing_is_cleaned_up_in_the_root_folder() {
    let mut c = config();
    c.account_115_temp_folder_id = "0".to_string();
    let step = ImportRun::start(5, c);
    let mut run = step.run;
    run.stage = Stage::SavingShare;
    run.temp_folder = "200".to_string();
    run.results = vec![kept("1", "a", "2")];
    assert!(matches!(run.advance(Event::ShareSaved).action, Action::Complete));
    assert!(cleanup_allowed("100", "200", "hidden-task-5"));
    assert!(!cleanup_allowed(" ", "200", "hidden-task-5"));
    assert!(!cleanup_allowed("100", "0", "hidden-task-5"));
    assert!(!cleanup_allowed("100", "", "hidden-task-5"));
    assert!(!cleanup_allowed("100", "100", "hidden-task-5"));
    assert!(!cleanup_allowed("100", "200", "films"));
    let listed = vec![entry("hidden-task-5", Some("200"), true)];
    assert!(cleanup_confirmed(&listed, "200", "hidden-task-5"));
    assert!(!cleanup_confirmed(&listed, "201", "hidden-task-5"));
    assert!(!cleanup_confirmed(&[entry("hidden-task-5", Some("200"), false)], "200", "hidden-task-5"));
}

#[test]
fn folders_that_moved_are_not_deleted() {
    let step = ImportRun::start(5, config());
    let mut run = step.run;
    run.stage = Stage::ListingRoot;
    run.temp_folder = "200".to_string();
    let step = run.advance(Event::RootListed(Some(vec![entry("hidden-task-6", Some("200"), true)])));
    assert!(matches!(step.action, Action::Complete));
}

#[test]
fn events_are_expected_in_their_stage() {
    let step = ImportRun::start(5, config());
    assert!(step.run.expects(&Event::Failed("x".to_string())));
    assert!(!step.run.expects(&Event::Measured));
    let step = saved(config(), vec![], None);
    assert!(step.run.expects(&rate(true, None)));
    assert!(!step.run.expects(&Event::Failed("x".to_string())));
}

#[test]
fn only_waiting_tasks_are_imported() {
    assert_eq!(next_turn(None), Turn::Idle { secs: 3 });
    assert_eq!(next_turn(Some(4)), Turn::Look { task_id: 4 });
    assert!(should_process(Some("pending")));
    assert!(!should_process(Some("skipped")));
    assert!(!should_process(None));
}

#[test]
fn walks_find_all_files_in_order() {
    let mut walk = Walk::new(vec![
        entry("a", Some("1"), true),
        entry("b.mkv", Some("2"), false),
        entry("hidden", None, true),
    ]);
    let folder = walk.next().unwrap();
    assert_eq!(folder.folder_id, "1");
    assert_eq!(folder.path, "a");
    assert_eq!(Walk::listing_failed(&folder, "busy"), "列举目录 a 失败：busy");
    walk.listed(
        &folder.path,
        vec![entry("x.mkv", Some("3"), false), entry("c", Some("4"), true), entry("y.srt", None, false)],
    );
    let folder = walk.next().unwrap();
    assert_eq!(folder.path, "a/c");
    walk.listed(&folder.path, vec![entry("z.mkv", Some("5"), false)]);
    assert!(walk.next().is_none());
    let paths: Vec<&str> = walk.out.iter().map(|f| f.path.as_str()).collect();
    assert_eq!(paths, vec!["a/x.mkv", "a/c/z.mkv", "a/y.srt", "b.mkv"]);
}

#[test]
fn share_ids_are_distinct() {
    let results = vec![kept("1", "a", "9"), kept("2", "b", "9"), kept(" ", "c", "0"), kept("1", "d", "")];
    assert_eq!(build_share_file_ids(&results, &[]), vec!["9", "1", "2"]);
    let taken = vec![entry("a", Some("7"), true), entry("b", None, false), entry("c", Some("7"), false)];
    assert_eq!(build_share_file_ids(&[], &taken), vec!["7"]);
    let mut ids = vec!["a".to_string()];
    push_unique_id(&mut ids, "a");
    push_unique_id(&mut ids, "  ");
    push_unique_id(&mut ids, "b");
    assert_eq!(ids, vec!["a", "b"]);
    assert_eq!(entry_ids(&taken), vec!["7", "7"]);
}

#[test]
fn titles_of_shares() {
    let said = ParsedFileName {
        title: "盗梦空间".to_string(),
        year: Some(2011),
        ..ParsedFileName::default()
    };
    assert_eq!(build_display_title(Some(&film()), Some(&said)).as_deref(), Some("盗梦空间 (2010)"));
    assert_eq!(build_display_title(None, Some(&said)).as_deref(), Some("盗梦空间 (2011)"));
    assert_eq!(build_display_title(None, None), None);
    assert_eq!(extract_share_id("https://115.com/s/a").unwrap(), "a");
    assert_eq!(extract_share_id("x").unwrap_err(), "无效的 115 分享 URL：x");
}

#[test]
fn the_first_telling_file_names_the_resource() {
    let files = vec![
        entry("Wrong.mkv", Some("1"), true),
        entry("Wrong.srt", Some("2"), false),
        entry("1080p.mkv", Some("3"), false),
        entry("Show.S01E02.mkv", Some("4"), false),
        entry("Other.mkv", Some("5"), false),
    ];
    let said = infer(&files).unwrap();
    assert_eq!(said.title, "Show");
    assert_eq!(said.episode, Some(2));
    assert!(infer(&files[..3]).is_none());
    assert!(first_series(None).is_none());
    assert!(first_series(Some(vec![])).is_none());
    let tv = |id: i64| TmdbTv {
        id,
        name: "t".to_string(),
        original_name: "t".to_string(),
        first_air_date: None,
        overview: None,
        poster_path: None,
        backdrop_path: None,
        confidence: 0,
    };
    assert_eq!(first_series(Some(vec![tv(8), tv(9)])).unwrap().tmdb_id(), 8);
}

#[test]
fn the_first_name_with_a_title_counts() {
    let named = |title: &str| ParsedFileName {
        title: title.to_string(),
        ..ParsedFileName::default()
    };
    let first = first_titled(vec![named(""), named("a"), named("b")]).unwrap();
    assert_eq!(first.title, "a");
    assert!(first_titled(vec![named("")]).is_none());
}

#[test]
fn rows_tell_what_names_say() {
    assert_eq!(media_type(true, false), "video");
    assert_eq!(media_type(false, true), "subtitle");
    assert_eq!(media_type(false, false), "other");
    assert_eq!(row_for(None, None, true).resource_type, "tv");
    assert_eq!(row_for(None, None, false).resource_type, "other");
    assert_eq!(row_for(Some(&film()), None, true).resource_type, "movie");
    let said = ParsedFileName {
        title: "t".to_string(),
        year: None,
        season: Some(1),
        episode: Some(2),
        quality: Some("4K".to_string()),
        ext: "mkv".to_string(),
    };
    let row = file_row(&entry("a.mkv", Some("1"), false), None, "video", said);
    assert_eq!(row.file_name, "a.mkv");
    assert_eq!(row.file_ext, "mkv");
    assert_eq!(row.episode, Some(2));
    assert_eq!(row.quality.as_deref(), Some("4K"));
}

#[test]
fn series_are_looked_up_as_series() {
    let step = transferred(config());
    let step = step.run.advance(Event::Listed(vec![]));
    let step = step.run.advance(Event::Collected(vec![entry("Show.S01E02.mkv", Some("4"), false)]));
    assert!(matches!(&step.action, Action::Match(Lookup::Series { title, year })
        if title == "Show" && year.is_none()));
    let mut no_key = config();
    no_key.tmdb_api_key = String::new();
    let step = transferred(no_key);
    let step = step.run.advance(Event::Listed(vec![]));
    let step = step.run.advance(Event::Collected(vec![entry("Show.mkv", Some("4"), false)]));
    assert!(matches!(&step.action, Action::Match(Lookup::Nothing)));
}

#[test]
fn resources_are_stored_with_what_is_known() {
    let files = vec![entry("Show.S01E02.1080p.mkv", Some("4"), false), entry("d", Some("5"), true)];
    let row = resource_row(Some(&film()), None, &files);
    assert_eq!(row.title, "Inception");
    assert_eq!(row.original_title.as_deref(), Some("Inception"));
    assert_eq!(row.year, Some(2010));
    assert_eq!(row.resource_type, "movie");
    assert_eq!(row.tmdb_id, Some(27205));
    assert_eq!(row.poster_url.as_deref(), Some("https://image.tmdb.org/t/p/w500/p.jpg"));
    let row = resource_row(None, None, &files);
    assert_eq!(row.title, "未识别资源");
    assert_eq!(row.resource_type, "tv");
    assert_eq!(row.tmdb_id, None);
    assert_eq!(resource_row(None, None, &files[1..]).resource_type, "other");
}

#[test]
fn files_are_stored_as_they_were_kept() {
    let files = vec![entry("Show.S01E02.1080p.mkv", Some("4"), false), entry("d", Some("5"), true)];
    let rows = resource_file_rows(&files, &[]);
    assert_eq!(rows.len(), 1);
    assert_eq!(rows[0].file_name, "Show.S01E02.1080p.mkv");
    assert_eq!(rows[0].file_path, "Show.S01E02.1080p.mkv");
    assert_eq!(rows[0].file_size, 7);
    assert_eq!(rows[0].file_ext, "mkv");
    assert_eq!(rows[0].media_type, "video");
    assert_eq!(rows[0].season, Some(1));
    assert_eq!(rows[0].episode, Some(2));
    assert_eq!(rows[0].quality.as_deref(), Some("1080p"));
    assert_eq!(rows[0].cloud_file_id.as_deref(), Some("4"));
    let results = vec![kept("4", "New.mkv", "9"), kept("8", "Sub.srt", "9")];
    let rows = resource_file_rows(&files, &results);
    assert_eq!(rows.len(), 2);
    assert_eq!(rows[0].file_name, "New.mkv");
    assert_eq!(rows[0].file_path, "9/New.mkv");
    assert_eq!(rows[0].file_size, 7);
    assert_eq!(rows[1].media_type, "subtitle");
    assert_eq!(rows[1].file_size, 0);
    assert_eq!(rows[1].cloud_file_id.as_deref(), Some("8"));
}

#[test]
fn checks_make_shares_active_or_not() {
    assert_eq!(status_after_check(Some(true)), ShareStatus::Active);
    assert_eq!(status_after_check(Some(false)), ShareStatus::Inactive);
    assert_eq!(status_after_check(None), ShareStatus::Inactive);
}

#[test]
fn space_is_short_from_nine_tenths_on() {
    let gb = 1024i64 * 1024 * 1024;
    let report = run_quota_check(&QuotaInfo { total: 100, used: 90, free: 3 * gb + 5 });
    assert_eq!(report.used_percent, 90);
    assert_eq!(report.free_gb, 3);
    assert!(report.is_short);
    let report = run_quota_check(&QuotaInfo { total: 1000, used: 899, free: -gb - 1 });
    assert_eq!(report.used_percent, 89);
    assert_eq!(report.free_gb, -1);
    assert!(!report.is_short);
    assert_eq!(run_quota_check(&QuotaInfo { total: 0, used: 9, free: 0 }).used_percent, 0);
    let report = run_quota_check(&QuotaInfo { total: 1, used: i64::MAX, free: 0 });
    assert_eq!(report.used_percent, i64::MAX as i128 * 100);
    let report = run_quota_check(&QuotaInfo { total: 7, used: -1, free: 0 });
    assert_eq!(report.used_percent, -14);
}

#[test]
fn folders_of_finished_tasks_are_cleaned_up() {
    let mut c = config();
    assert_eq!(cleanup_root(&c).as_deref(), Some("100"));
    c.account_115_temp_folder_id = "0".to_string();
    assert_eq!(cleanup_root(&c), None);
    let entries = vec![
        entry("hidden-task-1", Some("a"), true),
        entry("hidden-task-2", Some("b"), true),
        entry("hidden-task-1", Some("c"), false),
        entry("films", Some("d"), true),
        entry("hidden-task-3", None, true),
        entry("hidden-task-10", Some("e"), true),
    ];
    let left = run_temp_cleanup(&entries, &[1, 3, 10]);
    let ids: Vec<&str> = left.iter().map(|l| l.folder_id.as_str()).collect();
    assert_eq!(ids, vec!["a", "e"]);
    assert_eq!(left[1].name, "hidden-task-10");
    assert!(is_nearly_empty(Some(4)));
    assert!(!is_nearly_empty(Some(5)));
    assert!(is_nearly_empty(Some(0)));
    assert!(!is_nearly_empty(None));
    assert_eq!(
        finished_statuses(),
        vec![TaskStatus::Completed, TaskStatus::Failed, TaskStatus::Skipped]
    );
}
