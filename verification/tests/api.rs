use hidden::adapters::adapter_115::{Adapter115, FileEntry, QuotaInfo, ShareResult};
use hidden::api::health::{get_stats, set_log_level, SetLogLevelBody, StoredCounts};
use hidden::api::paging::{default_limit, page_of, page_window};
use hidden::api::resources::{
    default_folder_cid, default_popular_limit, delete_resource, deletion_report, folder_listing,
    get_folder_name, get_resource, list_folders, list_resources, normalize_tmdb_image_url,
    popular_resources, require_resource, FolderNameQuery, FolderQuery, Popular, PopularQuery,
    PopularResourceItem, SearchQuery,
};
use hidden::api::shares::{
    check_share, checked, delete_share, extract_share_id_from_url, get_share, list_shares,
    rebuild_allowed, rebuild_share, rebuilt, ListSharesQuery,
};
use hidden::api::tasks::{
    admit_task, cancel_task, create_task, default_priority, delete_task, get_task, list_tasks,
    retry_task, submit, CreateTaskRequest, DeleteTaskQuery, ListTasksQuery, Submission,
    TaskResponse,
};
use hidden::config::Config;
use hidden::db::models::{
    AccountStatus, ImportTask, Resource, ResourceType, Share, ShareStatus, TaskStatus,
};
use hidden::error::AppError;
use hidden::services::tmdb::{TmdbMovie, TmdbTv};
use hidden::startup::{is_pong, tries_again};
use hidden::text_map::TextMap;

fn request(url: &str, code: Option<&str>) -> CreateTaskRequest {
    CreateTaskRequest {
        share_url: url.to_string(),
        pick_code: code.map(|t| t.to_string()),
        category: Some("movie".to_string()),
        priority: 5,
        remark: None,
    }
}

fn task(status: &str) -> ImportTask {
    ImportTask {
        id: 7,
        source_share_url: "https://115.com/s/a".to_string(),
        source_pick_code: None,
        status: status.to_string(),
        total_size: Some(1),
        total_files: Some(2),
        current_step: None,
        error_message: None,
        priority: 5,
        category: None,
        remark: None,
        created_at: 10,
        updated_at: 20,
    }
}

fn share(status: &str, resource_id: Option<i64>, code: Option<&str>, url: &str) -> Share {
    Share {
        id: 4,
        resource_id,
        share_url: url.to_string(),
        pick_code: None,
        share_code: code.map(|t| t.to_string()),
        share_title: None,
        share_type: None,
        file_count: None,
        total_size: None,
        status: status.to_string(),
        last_checked_at: None,
        created_at: 0,
    }
}

fn resource(poster: Option<&str>) -> Resource {
    Resource {
        id: 3,
        title: "t".to_string(),
        original_title: None,
        year: Some(1999),
        resource_type: "movie".to_string(),
        tmdb_id: None,
        imdb_id: None,
        overview: None,
        poster_url: poster.map(|t| t.to_string()),
        backdrop_url: None,
        status: "active".to_string(),
        created_at: 1,
        updated_at: 2,
    }
}

fn told(e: AppError) -> (u16, String) {
    let answer = e.into_response();
    (answer.status_code, answer.message)
}

#[test]
fn errors_have_a_status_and_a_message() {
    let s = |t: &str| t.to_string();
    assert_eq!(told(AppError::NotFound(s("x"))), (404, s("x")));
    assert_eq!(told(AppError::BadRequest(s("x"))), (400, s("x")));
    assert_eq!(told(AppError::Unauthorized), (401, s("未授权")));
    assert_eq!(told(AppError::Forbidden), (403, s("权限不足")));
    assert_eq!(told(AppError::RateLimited), (429, s("请求频率超限，请稍后重试")));
    assert_eq!(told(AppError::Database(s("x"))), (500, s("数据库操作失败")));
    assert_eq!(told(AppError::Http(s("x"))), (502, s("外部服务请求失败")));
    assert_eq!(told(AppError::Api115(s("x"))), (502, s("115 API: x")));
    assert_eq!(told(AppError::TmdbApi(s("x"))), (502, s("TMDB API: x")));
    assert_eq!(told(AppError::Config(s("x"))), (500, s("服务器配置错误")));
    assert_eq!(told(AppError::Redis(s("x"))), (500, s("缓存服务错误")));
    assert_eq!(told(AppError::Serialize(s("x"))), (500, s("数据处理失败")));
    assert_eq!(told(AppError::Internal(s("x"))), (500, s("服务器内部错误")));
    assert_eq!(AppError::Config(s("x")).message(), "配置错误: x");
    assert_eq!(AppError::RateLimited.message(), "请求频率超限");
}

#[test]
fn enumerations_have_names() {
    assert_eq!(TaskStatus::WaitingSpace.as_str(), "waiting_space");
    assert_eq!(TaskStatus::from_name("transfer_failed"), Some(TaskStatus::TransferFailed));
    assert_eq!(TaskStatus::from_name("Pending"), None);
    assert_eq!(TaskStatus::default(), TaskStatus::Pending);
    assert_eq!(ResourceType::default(), ResourceType::Other);
    assert_eq!(ResourceType::from_name("anime"), Some(ResourceType::Anime));
    assert_eq!(ShareStatus::default(), ShareStatus::Active);
    assert_eq!(ShareStatus::from_name("deleted"), Some(ShareStatus::Deleted));
    assert_eq!(AccountStatus::CookieExpired.as_str(), "cookieexpired");
    assert_eq!(AccountStatus::from_name("banned"), Some(AccountStatus::Banned));
}

#[test]
fn pages_have_bounds() {
    assert_eq!(default_limit(), 20);
    let w = page_window(-3, 0);
    assert_eq!((w.skip, w.limit), (0, 1));
    let w = page_window(5, 1000);
    assert_eq!((w.skip, w.limit), (5, 100));
    let w = page_window(0, 100);
    assert_eq!(w.limit, 100);
    let w = list_tasks(&ListTasksQuery { skip: 3, limit: -1, status: None });
    assert_eq!((w.skip, w.limit), (3, 1));
    let w = list_shares(&ListSharesQuery { skip: -3, limit: 50, status: None });
    assert_eq!((w.skip, w.limit), (0, 50));
    let page = page_of(9, w, vec![1]);
    assert_eq!((page.total, page.skip, page.limit, page.items), (9, 0, 50, vec![1]));
}

#[test]
fn tasks_are_created_from_share_links() {
    assert_eq!(default_priority(), 5);
    let new = create_task(request("  https://115.com/s/a?password=xy&k=v ", None)).unwrap();
    assert_eq!(new.source_share_url, "https://115.com/s/a?k=v");
    assert_eq!(new.source_pick_code.as_deref(), Some("xy"));
    assert_eq!(new.status, TaskStatus::Pending);
    assert_eq!(new.priority, 5);
    assert_eq!(new.category.as_deref(), Some("movie"));
    let new = create_task(request("https://115.com/s/a?password=xy", Some("given"))).unwrap();
    assert_eq!(new.source_pick_code.as_deref(), Some("given"));
    let e = create_task(request("  ", None)).unwrap_err();
    assert_eq!(told(e), (400, "share_url 不能为空".to_string()));
    let e = create_task(request("https://example.com/s/a", None)).unwrap_err();
    assert_eq!(told(e), (400, "分享链接格式无效，仅支持 115 的分享链接".to_string()));
}

#[test]
fn links_stored_alike_are_accepted_alike() {
    let first = create_task(request("115.com/s/abc", None)).unwrap();
    let again = create_task(request("115.com/s/abc?password=://x", None)).unwrap();
    assert_eq!(again.source_share_url, first.source_share_url);
    assert_eq!(again.source_pick_code.as_deref(), Some("://x"));
    assert!(create_task(request("evil.example/s/abc?u=://115.com", None)).is_err());
    assert!(create_task(request("115.com/?password=/s/abc", None)).is_err());
}

#[test]
fn shares_are_submitted_once() {
    let new = || create_task(request("https://115.com/s/a", None)).unwrap();
    match submit(new(), Some(task("completed"))) {
        Submission::Known(t) => assert_eq!(t.id, 7),
        Submission::Store(_) => panic!("the share is known"),
    }
    match submit(new(), None) {
        Submission::Store(t) => assert_eq!(t.source_share_url, "https://115.com/s/a"),
        Submission::Known(_) => panic!("the share is not known"),
    }
    assert!(admit_task(true).is_ok());
    let (status, message) = told(admit_task(false).unwrap_err());
    assert_eq!(status, 400);
    assert_eq!(message, "115 会话无效或 Cookie 配置错误，请在系统设置中检查并重新保存 Cookie");
}

#[test]
fn tasks_are_answered_as_they_are_stored() {
    let t = TaskResponse::from(task("pending"));
    assert_eq!(t.id, 7);
    assert_eq!(t.status, "pending");
    assert_eq!(t.total_files, Some(2));
    assert_eq!(t.updated_at, 20);
    assert_eq!(get_task(Some(task("x")), 7).unwrap().status, "x");
    assert_eq!(told(get_task(None, 9).unwrap_err()), (404, "任务 #9 不存在".to_string()));
}

#[test]
fn tasks_are_tried_again_cancelled_and_deleted() {
    let all = [
        "pending", "parsing", "waiting_space", "transferring", "transfer_failed", "organizing",
        "sharing", "verifying", "completed", "failed", "skipped",
    ];
    let soft = DeleteTaskQuery { force: None };
    let force = DeleteTaskQuery { force: Some(true) };
    for status in all {
        let t = task(status);
        let retry = ["failed", "transfer_failed", "skipped"].contains(&status);
        let cancel = ["pending", "waiting_space"].contains(&status);
        let delete =
            ["completed", "failed", "transfer_failed", "skipped", "waiting_space"].contains(&status);
        match retry_task(Some(&t), 7) {
            Ok(update) => assert!(retry && update.status == TaskStatus::Pending && update.forgets),
            Err(e) => {
                assert!(!retry);
                assert_eq!(told(e), (400, format!("任务状态为 {}，无法重试", status)));
            }
        }
        match cancel_task(Some(&t)) {
            Ok(update) => assert!(cancel && update.status == TaskStatus::Skipped && !update.forgets),
            Err(e) => {
                assert!(!cancel);
                assert_eq!(
                    told(e).1,
                    "任务不存在或状态不允许取消（只可取消待处理或空间等待中的任务）"
                );
            }
        }
        match delete_task(Some(&t), 7, &soft) {
            Ok(()) => assert!(delete),
            Err(e) => {
                assert!(!delete);
                assert_eq!(
                    told(e).1,
                    format!("任务正在运行中（{}），请先取消再删除；如确需删除可使用 ?force=true", status)
                );
            }
        }
        assert!(delete_task(Some(&t), 7, &force).is_ok());
    }
    assert_eq!(told(retry_task(None, 8).unwrap_err()).0, 404);
    assert_eq!(told(cancel_task(None).unwrap_err()).0, 400);
    assert_eq!(told(delete_task(None, 8, &force).unwrap_err()).0, 404);
}

#[test]
fn shares_are_checked_by_their_code() {
    let url = "https://115.com/s/abc?x";
    assert_eq!(check_share(Some(&share("active", None, Some("c"), url)), 4).unwrap(), "c");
    assert_eq!(check_share(Some(&share("active", None, None, url)), 4).unwrap(), "abc");
    let e = check_share(Some(&share("active", None, None, "bad")), 4).unwrap_err();
    assert_eq!(told(e), (400, "无法从 URL 提取分享 ID：bad".to_string()));
    assert_eq!(told(check_share(None, 4).unwrap_err()), (404, "分享 #4 不存在".to_string()));
    assert_eq!(extract_share_id_from_url(url).unwrap(), "abc");
    let report = checked(share("inactive", None, None, url), Some(true));
    assert_eq!(report.previous_status, "inactive");
    assert_eq!(report.status, ShareStatus::Active);
    assert!(report.alive);
    assert!(!checked(share("active", None, None, url), None).alive);
    assert_eq!(get_share(Some(share("active", None, None, url)), 4).unwrap().id, 4);
    assert_eq!(told(get_share(None, 5).unwrap_err()).0, 404);
}

#[test]
fn shares_are_created_anew_where_they_fail() {
    let url = "https://115.com/s/abc";
    assert_eq!(rebuild_share(Some(&share("inactive", Some(3), None, url)), 4).unwrap(), 3);
    let e = rebuild_share(Some(&share("active", Some(3), None, url)), 4).unwrap_err();
    assert_eq!(told(e), (400, "分享链接仍然有效，无需重建".to_string()));
    let e = rebuild_share(Some(&share("failed", None, None, url)), 4).unwrap_err();
    assert_eq!(told(e).1, "分享未关联资源，无法自动重建（请重新提交导入任务）");
    assert_eq!(told(rebuild_share(None, 4).unwrap_err()).0, 404);
    let files = vec!["1".to_string()];
    assert!(rebuild_allowed(&files, true).is_ok());
    assert_eq!(told(rebuild_allowed(&files, false).unwrap_err()).0, 429);
    assert_eq!(
        told(rebuild_allowed(&[], false).unwrap_err()).1,
        "关联资源没有云盘文件记录，无法重建分享"
    );
    let update = rebuilt(Ok(ShareResult {
        share_url: "u".to_string(),
        pick_code: "p".to_string(),
        share_id: "s".to_string(),
    }))
    .unwrap();
    assert_eq!(update.share_code, "s");
    assert_eq!(update.status, ShareStatus::Active);
    assert_eq!(told(rebuilt(Err("no".to_string())).unwrap_err()), (502, "115 API: no".to_string()));
    assert_eq!(
        delete_share(Some(&share("active", None, None, url)), 4).unwrap().as_deref(),
        Some("abc")
    );
    assert_eq!(delete_share(Some(&share("active", None, None, "x")), 4).unwrap(), None);
    assert_eq!(told(delete_share(None, 4).unwrap_err()).0, 404);
}

#[test]
fn images_are_found_by_path_or_place() {
    let at = |t: &str| normalize_tmdb_image_url(Some(t.to_string()));
    assert_eq!(at("/p.jpg").as_deref(), Some("https://image.tmdb.org/t/p/w500/p.jpg"));
    assert_eq!(at(" https://x/p.jpg ").as_deref(), Some("https://x/p.jpg"));
    assert_eq!(at("http://x/p.jpg").as_deref(), Some("http://x/p.jpg"));
    assert_eq!(at("p.jpg").as_deref(), Some("p.jpg"));
    assert_eq!(at("  "), None);
    assert_eq!(normalize_tmdb_image_url(None), None);
    let once = at("/p.jpg");
    assert_eq!(normalize_tmdb_image_url(once.clone()), once);
}

#[test]
fn resources_are_answered_with_their_images() {
    let r = get_resource(Some(resource(Some("/p.jpg"))), 3).unwrap();
    assert_eq!(r.id, 3);
    assert_eq!(r.year, Some(1999));
    assert_eq!(r.poster_url.as_deref(), Some("https://image.tmdb.org/t/p/w500/p.jpg"));
    assert_eq!(r.created_at, 1);
    assert_eq!(told(get_resource(None, 3).unwrap_err()), (404, "资源 #3 不存在".to_string()));
    assert!(require_resource(true, 3).is_ok());
    assert_eq!(told(require_resource(false, 3).unwrap_err()).0, 404);
}

#[test]
fn resources_are_filtered() {
    let f = list_resources(&SearchQuery {
        keyword: Some(" 盗梦 ".to_string()),
        resource_type: Some(" ".to_string()),
        year: Some(2010),
        skip: -1,
        limit: 500,
    });
    assert_eq!(f.keyword.as_deref(), Some("%盗梦%"));
    assert_eq!(f.resource_type, None);
    assert_eq!(f.year, Some(2010));
    assert_eq!((f.window.skip, f.window.limit), (0, 100));
}

#[test]
fn popular_resources_are_films_or_series() {
    assert_eq!(default_popular_limit(), 12);
    let ask = |kind: Option<&str>, limit: usize| {
        popular_resources(&PopularQuery { resource_type: kind.map(|t| t.to_string()), limit })
    };
    assert_eq!(ask(None, 0).unwrap(), Popular::Movies { limit: 1 });
    assert_eq!(ask(Some(""), 99).unwrap(), Popular::Movies { limit: 40 });
    assert_eq!(ask(Some("movie"), 12).unwrap(), Popular::Movies { limit: 12 });
    assert_eq!(ask(Some("tv"), 40).unwrap(), Popular::Series { limit: 40 });
    assert_eq!(
        told(ask(Some("anime"), 1).unwrap_err()),
        (400, "不支持的热门类型：anime，仅支持 movie/tv".to_string())
    );
    let item = PopularResourceItem::from_movie(TmdbMovie {
        id: 1,
        title: "t".to_string(),
        original_title: "o".to_string(),
        release_date: Some("2010-01-01".to_string()),
        overview: None,
        poster_path: Some("/p".to_string()),
        backdrop_path: None,
        confidence: 0,
    });
    assert_eq!(item.year, Some(2010));
    assert_eq!(item.resource_type, "movie");
    assert_eq!(item.poster_url.as_deref(), Some("https://image.tmdb.org/t/p/w500/p"));
    let item = PopularResourceItem::from_tv(TmdbTv {
        id: 2,
        name: "n".to_string(),
        original_name: "o".to_string(),
        first_air_date: None,
        overview: Some("v".to_string()),
        poster_path: None,
        backdrop_path: Some("/b".to_string()),
        confidence: 0,
    });
    assert_eq!(item.title, "n");
    assert_eq!(item.year, None);
    assert_eq!(item.resource_type, "tv");
}

#[test]
fn shares_of_deleted_resources_are_cancelled() {
    let shares = vec![
        share("active", Some(3), Some("a"), "x"),
        share("active", Some(3), None, "bad"),
        share("active", Some(3), None, "https://115.com/s/b"),
    ];
    assert_eq!(delete_resource(true, 3, &shares).unwrap(), vec!["a", "b"]);
    assert_eq!(told(delete_resource(false, 3, &shares).unwrap_err()).0, 404);
    let report = deletion_report(3, 1, 3, &[true, false, true]);
    assert!(report.deleted);
    assert_eq!(report.resource_id, 3);
    assert_eq!(report.shares_deleted, 3);
    assert_eq!(report.shares_canceled, 2);
    assert_eq!(report.share_cancel_failed, 1);
    assert!(!deletion_report(3, 0, 0, &[]).deleted);
}

#[test]
fn folders_are_listed() {
    let entry = |name: &str, id: Option<&str>, is_dir: bool| FileEntry {
        name: name.to_string(),
        size: 0,
        path: name.to_string(),
        is_dir,
        file_id: id.map(|t| t.to_string()),
        pick_code: None,
        folder_id: String::new(),
    };
    assert_eq!(default_folder_cid(), "0");
    let adapter = {
        let mut env = TextMap::new();
        for key in ["DATABASE_URL", "ACCOUNT_115_COOKIE", "TMDB_API_KEY", "JWT_SECRET"] {
            env.insert(key.to_string(), "x".to_string());
        }
        Adapter115::new("", Config::from_env(&env).unwrap())
    };
    let listing = folder_listing(&adapter, &FolderQuery { cid: "5".to_string() });
    assert_eq!(listing.request().pairs[0], ("cid".to_string(), "5".to_string()));
    let name = |cid: &str| get_folder_name(&adapter, &FolderNameQuery { cid: cid.to_string() });
    assert_eq!(name("0").unwrap(), "根目录");
    assert_eq!(name("7").unwrap_err().pairs.len(), 5);
    let folders =
        list_folders(&[entry("a", Some("1"), true), entry("b", Some("2"), false), entry("c", None, true)]);
    assert_eq!(folders.len(), 2);
    assert_eq!(folders[0].id, "1");
    assert_eq!(folders[1].name, "c");
    assert_eq!(folders[1].id, "");
}

#[test]
fn stats_add_up() {
    let counts = StoredCounts {
        resources: 1,
        shares: 10,
        active_shares: 4,
        tasks: 3,
        pending_tasks: 2,
        failed_tasks: 1,
    };
    let stats = get_stats(&counts, Some(QuotaInfo { total: 3, used: 1, free: 2 }));
    assert_eq!(stats.shares_inactive, 6);
    assert_eq!(stats.quota.unwrap().free, 2);
    assert!(get_stats(&counts, None).quota.is_none());
    let body = || SetLogLevelBody { level: "info".to_string() };
    assert_eq!(set_log_level(body(), Ok(())).unwrap(), "info");
    let e = set_log_level(body(), Err("bad".to_string())).unwrap_err();
    assert_eq!(told(e), (400, "bad".to_string()));
}

#[test]
fn services_are_waited_for() {
    assert!(tries_again(9));
    assert!(!tries_again(10));
    assert!(is_pong("PONG"));
    assert!(is_pong("pOnG"));
    assert!(!is_pong("PING"));
    assert!(!is_pong("PONG "));
}
