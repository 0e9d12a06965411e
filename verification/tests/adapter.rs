use hidden::adapters::adapter_115::{Adapter115, QuotaInfo, Retry};
use hidden::adapters::folder_listing::FolderPage;
use hidden::adapters::share_listing::{Page, ShareListing};
use hidden::call::Method;
use hidden::config::Config;
use hidden::json::{value_to_string, Json};
use hidden::text_map::TextMap;

fn adapter(cookie: &str) -> Adapter115 {
    let mut env = TextMap::new();
    for key in ["DATABASE_URL", "ACCOUNT_115_COOKIE", "TMDB_API_KEY", "JWT_SECRET"] {
        env.insert(key.to_string(), "x".to_string());
    }
    Adapter115::new(cookie, Config::from_env(&env).unwrap())
}

fn s(t: &str) -> Json {
    Json::Str(t.to_string())
}

fn n(v: u64) -> Json {
    Json::PosInt(v)
}

fn obj(pairs: Vec<(&str, Json)>) -> Json {
    Json::Object(pairs.into_iter().map(|(k, v)| (k.to_string(), v)).collect())
}

fn ids(list: &[&str]) -> Vec<String> {
    list.iter().map(|t| t.to_string()).collect()
}

fn pairs(list: &[(&str, &str)]) -> Vec<(String, String)> {
    list.iter().map(|(k, v)| (k.to_string(), v.to_string())).collect()
}

#[test]
fn identifiers_are_texts_or_integers() {
    assert_eq!(value_to_string(&s("12")).as_deref(), Some("12"));
    assert_eq!(value_to_string(&n(u64::MAX)).as_deref(), Some("18446744073709551615"));
    assert_eq!(value_to_string(&Json::NegInt(-7)).as_deref(), Some("-7"));
    assert_eq!(value_to_string(&Json::Float), None);
    assert_eq!(value_to_string(&Json::Null), None);
    assert_eq!(value_to_string(&Json::Bool(true)), None);
}

#[test]
fn cookie_is_sent_where_there_is_one() {
    let agent = ("User-Agent", "Mozilla/5.0 (compatible; hidden/1.0)");
    assert_eq!(adapter("").headers(), pairs(&[agent]));
    assert_eq!(adapter("UID=1").headers(), pairs(&[agent, ("Cookie", "UID=1")]));
}

#[test]
fn requests_keep_their_distance() {
    let a = adapter("");
    assert_eq!(a.rate_limit(0), 1_500_000_000);
    assert_eq!(a.rate_limit(1_499_999_999), 1);
    assert_eq!(a.rate_limit(1_500_000_000), 0);
    assert_eq!(a.rate_limit(u128::MAX), 0);
}

#[test]
fn retries_wait_longer_each_time() {
    let mut a = adapter("");
    a.config.account_115_retry_times = 6;
    let mut waits = Vec::new();
    let mut attempt = 0;
    while let Retry::After { attempt: next, wait_secs } = a.retry(attempt) {
        waits.push(wait_secs);
        attempt = next;
    }
    assert_eq!(waits, vec![2, 4, 8, 16, 16, 16]);
    a.config.account_115_retry_times = 0;
    assert_eq!(a.retry(0), Retry::GiveUp);
}

#[test]
fn state_is_true_or_an_integer() {
    let good = [Json::Bool(true), n(1), Json::NegInt(-1)];
    let bad = [Json::Bool(false), n(0), s("1"), Json::Null, Json::Float];
    for state in good {
        assert!(Adapter115::session_reply(Some(&obj(vec![("state", state)]))));
    }
    for state in bad {
        assert!(!Adapter115::session_reply(Some(&obj(vec![("state", state)]))));
    }
    assert!(!Adapter115::session_reply(None));
    assert!(!Adapter115::session_reply(Some(&Json::Null)));
}

#[test]
fn space_is_read_from_numbers_and_texts() {
    let size = |v: Json| obj(vec![("size", v)]);
    let resp = obj(vec![
        ("state", n(1)),
        (
            "data",
            obj(vec![
                ("all_total", size(s("2199023255552"))),
                ("all_use", size(n(100))),
                ("all_remain", size(n(7))),
                ("rt_space_info", obj(vec![("all_remain", size(n(9)))])),
            ]),
        ),
    ]);
    assert_eq!(
        Adapter115::quota_reply(&resp),
        QuotaInfo { total: 2199023255552, used: 100, free: 7 }
    );
    let wrapped = obj(vec![(
        "rt_space_info",
        obj(vec![("all_total", size(n(50))), ("all_use", size(n(20)))]),
    )]);
    assert_eq!(Adapter115::quota_reply(&wrapped), QuotaInfo { total: 50, used: 20, free: 30 });
    assert_eq!(Adapter115::quota_reply(&Json::Null), QuotaInfo { total: 0, used: 0, free: 0 });
    let low = obj(vec![
        ("all_total", size(Json::NegInt(i64::MIN))),
        ("all_use", size(n(1))),
    ]);
    assert_eq!(Adapter115::quota_reply(&low).free, i64::MIN);
}

#[test]
fn requests_name_what_they_ask_for() {
    let a = adapter("");
    let c = a.check_session();
    assert_eq!(c.method, Method::Post);
    assert_eq!(c.url, "https://webapi.115.com/user/space_summury");
    assert!(c.pairs.is_empty());
    let c = a.get_quota();
    assert_eq!(c.method, Method::Get);
    assert_eq!(c.url, "https://proapi.115.com/android/user/space_info");
    let c = a.transfer_share("code", Some("xy"), &ids(&["1", "2"]), "9");
    assert_eq!(c.url, "https://webapi.115.com/share/receive");
    assert_eq!(
        c.pairs,
        pairs(&[("share_code", "code"), ("receive_code", "xy"), ("file_id", "1,2"), ("cid", "9")])
    );
    let c = a.create_folder("0", "name");
    assert_eq!(c.url, "https://proapi.115.com/open/folder/add");
    assert_eq!(c.pairs, pairs(&[("file_name", "name"), ("pid", "0")]));
    let c = a.move_files(&ids(&["1"]), "2");
    assert_eq!(c.url, "https://proapi.115.com/open/ufile/move");
    assert_eq!(c.pairs, pairs(&[("file_ids", "1"), ("to_cid", "2")]));
    let c = a.rename_file("1", "b");
    assert_eq!(c.url, "https://proapi.115.com/open/ufile/update");
    assert_eq!(c.pairs, pairs(&[("file_id", "1"), ("file_name", "b")]));
    let c = a.list_files("5").request();
    assert_eq!(c.url, "https://webapi.115.com/files");
    assert_eq!(
        c.pairs,
        pairs(&[
            ("cid", "5"),
            ("show_dir", "1"),
            ("limit", "1150"),
            ("offset", "0"),
            ("aid", "1"),
            ("count_folders", "1"),
            ("record_open_time", "1")
        ])
    );
    let c = a.create_share(&ids(&["1", "2"]));
    assert_eq!(c.url, "https://webapi.115.com/share/send");
    assert_eq!(
        c.pairs,
        pairs(&[("file_ids", "1,2"), ("ignore_warn", "1"), ("is_asc", "1"), ("order", "file_name")])
    );
    let c = a.cancel_share("code");
    assert_eq!(c.url, "https://webapi.115.com/share/updateshare");
    assert_eq!(c.pairs, pairs(&[("share_code", "code"), ("action", "cancel")]));
}

#[test]
fn deletions_are_numbered() {
    let a = adapter("");
    assert_eq!(a.delete_files(&ids(&["7"])).pairs, pairs(&[("fid", "7")]));
    assert_eq!(
        a.delete_files(&ids(&["7", "8"])).pairs,
        pairs(&[("fid[0]", "7"), ("fid[1]", "8")])
    );
    assert!(a.delete_files(&[]).pairs.is_empty());
}

#[test]
fn entries_are_files_or_folders() {
    let resp = obj(vec![(
        "data",
        Json::Array(vec![
            obj(vec![("n", s("film.mkv")), ("fid", n(11)), ("cid", n(1)), ("s", n(5)), ("pc", s("p"))]),
            obj(vec![("n", s("dir")), ("cid", s("22"))]),
            obj(vec![("file_name", s("d2")), ("fid", n(3)), ("ico", s("folder"))]),
            obj(vec![("n", s("d3")), ("fid", n(4)), ("cid", n(5)), ("is_dir", n(1))]),
            obj(vec![("fid", Json::Float), ("file_id", n(6)), ("file_size", n(8))]),
        ]),
    )]);
    let list = Adapter115::list_reply(&resp);
    assert_eq!(list.len(), 5);
    assert_eq!(list[0].name, "film.mkv");
    assert_eq!(list[0].path, "film.mkv");
    assert!(!list[0].is_dir);
    assert_eq!(list[0].file_id.as_deref(), Some("11"));
    assert_eq!(list[0].size, 5);
    assert_eq!(list[0].pick_code.as_deref(), Some("p"));
    assert!(list[1].is_dir);
    assert_eq!(list[1].file_id.as_deref(), Some("22"));
    assert_eq!(list[1].pick_code, None);
    assert!(list[2].is_dir);
    assert_eq!(list[2].name, "d2");
    assert_eq!(list[2].file_id.as_deref(), Some("3"));
    assert!(list[3].is_dir);
    assert_eq!(list[3].file_id.as_deref(), Some("5"));
    assert!(!list[4].is_dir);
    assert_eq!(list[4].name, "");
    assert_eq!(list[4].file_id.as_deref(), Some("6"));
    assert_eq!(list[4].size, 8);
    assert!(Adapter115::list_reply(&Json::Null).is_empty());
}

#[test]
fn created_folders_have_an_identifier() {
    let ok = obj(vec![("state", Json::Bool(true)), ("data", obj(vec![("cid", n(8))]))]);
    assert_eq!(Adapter115::create_folder_reply(&ok, "raw").unwrap(), "8");
    let first = obj(vec![
        ("state", Json::Bool(true)),
        ("data", obj(vec![("file_id", s("7")), ("cid", n(8))])),
    ]);
    assert_eq!(Adapter115::create_folder_reply(&first, "raw").unwrap(), "7");
    let none = obj(vec![("state", Json::Bool(true)), ("data", obj(vec![("cid", s(""))]))]);
    assert_eq!(
        Adapter115::create_folder_reply(&none, "raw").unwrap_err(),
        "创建文件夹成功但响应缺少文件夹 ID：raw"
    );
    let refused = obj(vec![("state", Json::Bool(false)), ("msg", s("no"))]);
    assert_eq!(
        Adapter115::create_folder_reply(&refused, "raw").unwrap_err(),
        "创建文件夹失败：no"
    );
}

#[test]
fn transfers_tell_why_they_failed() {
    assert!(Adapter115::transfer_reply(&obj(vec![("state", n(1))])).unwrap());
    let refused = obj(vec![("state", n(0)), ("errno", n(20)), ("msg", s("busy"))]);
    assert_eq!(
        Adapter115::transfer_reply(&refused).unwrap_err(),
        "转存失败 [errno=20]：busy"
    );
    assert_eq!(
        Adapter115::transfer_reply(&Json::Null).unwrap_err(),
        "转存失败 [errno=0]：unknown"
    );
}

#[test]
fn shares_are_created_with_a_link() {
    let ok = obj(vec![
        ("state", n(1)),
        ("data", obj(vec![("share_code", s("abc")), ("receive_code", n(42))])),
    ]);
    let share = Adapter115::create_share_reply(&ok, "raw").unwrap();
    assert_eq!(share.share_url, "https://115.com/s/abc");
    assert_eq!(share.pick_code, "42");
    assert_eq!(share.share_id, "abc");
    let none = obj(vec![("state", n(1))]);
    assert_eq!(
        Adapter115::create_share_reply(&none, "raw").unwrap_err(),
        "创建分享成功但响应缺少 share_code：raw"
    );
    assert_eq!(
        Adapter115::create_share_reply(&Json::Null, "raw").unwrap_err(),
        "创建分享失败：unknown"
    );
    assert!(Adapter115::cancel_reply(&obj(vec![("state", n(1))])).is_ok());
    assert_eq!(
        Adapter115::cancel_reply(&obj(vec![("msg", s("gone"))])).unwrap_err(),
        "取消分享失败：gone"
    );
}

#[test]
fn folder_names_are_at_the_end_of_the_path() {
    let a = adapter("");
    assert_eq!(a.get_folder_name("0").unwrap(), "根目录");
    assert_eq!(a.get_folder_name("").unwrap(), "根目录");
    let call = a.get_folder_name("7").unwrap_err();
    assert_eq!(
        call.pairs,
        pairs(&[("cid", "7"), ("show_dir", "1"), ("limit", "1"), ("offset", "0"), ("aid", "1")])
    );
    let path = |items: Vec<Json>| obj(vec![("path", Json::Array(items))]);
    let named = path(vec![obj(vec![("name", s("top"))]), obj(vec![("n", s("here"))])]);
    assert_eq!(Adapter115::folder_name_reply("7", &named), "here");
    assert_eq!(Adapter115::folder_name_reply("7", &path(vec![])), "7");
    assert_eq!(Adapter115::folder_name_reply("7", &Json::Null), "7");
}

#[test]
fn folders_are_read_page_by_page() {
    let a = adapter("");
    let page = |from: u64, to: u64| {
        let items = (from..to).map(|i| obj(vec![("n", s("f")), ("fid", n(i))])).collect();
        obj(vec![("data", Json::Array(items))])
    };
    let listing = match a.list_files("5").page(&page(0, 1150)) {
        FolderPage::More(next) => next,
        FolderPage::Complete(_) => panic!("the page was full"),
    };
    assert_eq!(listing.request().pairs[0], ("cid".to_string(), "5".to_string()));
    assert_eq!(listing.request().pairs[3], ("offset".to_string(), "1150".to_string()));
    let files = match listing.page(&page(1150, 1200)) {
        FolderPage::Complete(files) => files,
        FolderPage::More(_) => panic!("the page was not full"),
    };
    assert_eq!(files.len(), 1200);
    for (i, f) in files.iter().enumerate() {
        assert_eq!(f.file_id.as_deref(), Some(i.to_string().as_str()));
        assert_eq!(f.folder_id, "5");
    }
    match a.list_files("5").page(&page(0, 0)) {
        FolderPage::Complete(files) => assert!(files.is_empty()),
        FolderPage::More(_) => panic!("the folder is empty"),
    }
}

fn snap(items: Vec<Json>, count: u64) -> Json {
    obj(vec![
        ("state", n(1)),
        ("data", obj(vec![("list", Json::Array(items)), ("count", n(count))])),
    ])
}

fn more(page: Page) -> ShareListing {
    match page {
        Page::More(next) => next,
        Page::Complete(_) => panic!("there is more to read"),
    }
}

fn asked_for(listing: &ShareListing) -> (String, String) {
    let pairs = listing.request().pairs;
    (pairs[2].1.clone(), pairs[4].1.clone())
}

#[test]
fn shares_are_read_page_by_page() {
    let a = adapter("");
    let file = |name: &str, size: u64| obj(vec![("n", s(name)), ("fid", s(name)), ("s", n(size))]);
    let listing = a.parse_share("code", None);
    assert_eq!(
        listing.request().pairs,
        pairs(&[
            ("share_code", "code"),
            ("receive_code", ""),
            ("cid", "0"),
            ("limit", "1000"),
            ("offset", "0")
        ])
    );
    let first = snap(vec![file("a", 5), file("b", 6)], 3);
    assert!(listing.fits(&first));
    let listing = more(listing.page(&first).unwrap());
    assert_eq!(asked_for(&listing), ("0".to_string(), "2".to_string()));
    let info = match listing.page(&snap(vec![file("c", 7)], 3)).unwrap() {
        Page::Complete(info) => info,
        Page::More(_) => panic!("all entries were read"),
    };
    assert_eq!(info.share_id, "code");
    assert_eq!(info.total_size, 18);
    assert_eq!(info.file_count, 3);
    assert_eq!(info.tree.len(), 3);
    assert_eq!(info.top.len(), 3);
}

#[test]
fn shares_are_read_folder_by_folder() {
    let a = adapter("");
    let file = |name: &str, size: u64| obj(vec![("n", s(name)), ("fid", s(name)), ("s", n(size))]);
    let dir = |name: &str, id: u64| obj(vec![("n", s(name)), ("cid", n(id)), ("s", n(100))]);
    let hidden = obj(vec![("n", s("nowhere"))]);
    let listing = a.parse_share("code", Some("xy"));
    let listing = more(listing.page(&snap(vec![dir("A", 1), file("x.mkv", 2), dir("B", 2)], 3)).unwrap());
    assert_eq!(asked_for(&listing), ("1".to_string(), "0".to_string()));
    let listing = more(listing.page(&snap(vec![file("a.mkv", 5), dir("C", 3)], 3)).unwrap());
    assert_eq!(asked_for(&listing), ("1".to_string(), "2".to_string()));
    let listing = more(listing.page(&snap(vec![hidden], 3)).unwrap());
    assert_eq!(asked_for(&listing), ("2".to_string(), "0".to_string()));
    let listing = more(listing.page(&snap(vec![], 0)).unwrap());
    assert_eq!(asked_for(&listing), ("3".to_string(), "0".to_string()));
    let info = match listing.page(&snap(vec![file("c.mkv", 7)], 1)).unwrap() {
        Page::Complete(info) => info,
        Page::More(_) => panic!("all folders were read"),
    };
    let paths: Vec<&str> = info.tree.iter().map(|f| f.path.as_str()).collect();
    assert_eq!(paths, vec!["A", "x.mkv", "B", "A/a.mkv", "A/C", "A/nowhere", "A/C/c.mkv"]);
    let top: Vec<&str> = info.top.iter().map(|f| f.name.as_str()).collect();
    assert_eq!(top, vec!["A", "x.mkv", "B"]);
    assert_eq!(info.total_size, 14);
    assert_eq!(info.file_count, 3);
}

#[test]
fn a_file_in_a_folder_counts() {
    let a = adapter("");
    let listing = a.parse_share("code", None);
    let top = snap(vec![obj(vec![("n", s("A")), ("cid", n(1))])], 1);
    let inner = snap(vec![obj(vec![("n", s("a.mkv")), ("fid", n(9)), ("s", n(5))])], 1);
    let info = match more(listing.page(&top).unwrap()).page(&inner).unwrap() {
        Page::Complete(info) => info,
        Page::More(_) => panic!("all was read"),
    };
    assert_eq!(info.file_count, 1);
    assert_eq!(info.total_size, 5);
    assert_eq!(info.tree[1].name, "a.mkv");
    assert_eq!(info.top.len(), 1);
}

#[test]
fn reading_a_share_ends_with_an_empty_page() {
    let a = adapter("");
    let empty = obj(vec![("state", n(1)), ("data", obj(vec![("count", n(9))]))]);
    match a.parse_share("code", Some("xy")).page(&empty).unwrap() {
        Page::Complete(info) => assert_eq!(info.file_count, 0),
        Page::More(_) => panic!("nothing was read"),
    }
    let refused = obj(vec![("state", n(0)), ("errno", n(4100018)), ("msg", s("gone"))]);
    let outcome = a.parse_share("code", Some("xy")).page(&refused);
    assert_eq!(outcome.unwrap_err(), "解析分享失败 [errno=4100018]：gone");
}

#[test]
fn sizes_of_a_share_have_to_add_up() {
    let a = adapter("");
    let big = obj(vec![("n", s("x")), ("fid", n(1)), ("s", n(i64::MAX as u64))]);
    let more = obj(vec![("n", s("y")), ("fid", n(2)), ("s", n(1))]);
    let resp = obj(vec![
        ("state", n(1)),
        ("data", obj(vec![("list", Json::Array(vec![big, more])), ("count", n(2))])),
    ]);
    assert!(!a.parse_share("code", None).fits(&resp));
}

#[test]
fn shares_that_can_be_read_can_be_used() {
    let a = adapter("");
    let read = obj(vec![("state", Json::Bool(true)), ("data", obj(vec![("count", n(0))]))]);
    let outcome = match a.parse_share("code", None).page(&read) {
        Ok(Page::Complete(info)) => Ok(info),
        Ok(Page::More(_)) => panic!("nothing is left to read"),
        Err(e) => Err(e),
    };
    assert!(Adapter115::verify_share(&outcome));
    assert!(!Adapter115::verify_share(&Err("gone".to_string())));
}
