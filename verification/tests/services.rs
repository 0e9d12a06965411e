use hidden::adapters::adapter_115::FileEntry;
use hidden::chance::{pause, pause_for, share_pause};
use hidden::config::Config;
use hidden::services::organizer::{
    build_standard_name, junk_extension, plan_step, standard_name_of, KeptFile, OrganizeStep,
    Organizer, TargetFolder,
};
use hidden::services::share_limiter::{
    check_share_rate, get_share_counts, interval_wait, record_share_created, share_keys,
    share_limits, since_last_share, ShareCounts, ShareLimits,
};
use hidden::services::title::{contains_cjk, preferred_title, sanitize_name};
use hidden::services::tmdb::{
    parse_year, smart_search_with_year, truncated, SearchOutcome, TmdbClient, TmdbMovie, TmdbResult,
    TmdbTv,
};
use hidden::text_map::TextMap;
use hidden::utils::ParsedFileName;

fn config() -> Config {
    let mut env = TextMap::new();
    for key in ["DATABASE_URL", "ACCOUNT_115_COOKIE", "JWT_SECRET"] {
        env.insert(key.to_string(), "x".to_string());
    }
    env.insert("TMDB_API_KEY".to_string(), "key".to_string());
    Config::from_env(&env).unwrap()
}

fn movie(id: i64, title: &str, confidence: i64) -> TmdbMovie {
    TmdbMovie {
        id,
        title: title.to_string(),
        original_title: format!("{} (original)", title),
        release_date: Some("2010-07-16".to_string()),
        overview: Some("about".to_string()),
        poster_path: Some("/p.jpg".to_string()),
        backdrop_path: Some("".to_string()),
        confidence,
    }
}

fn show(id: i64, name: &str, confidence: i64) -> TmdbTv {
    TmdbTv {
        id,
        name: name.to_string(),
        original_name: name.to_string(),
        first_air_date: Some("2008".to_string()),
        overview: None,
        poster_path: None,
        backdrop_path: Some("/b.jpg".to_string()),
        confidence,
    }
}

fn file(name: &str, size: i64, id: Option<&str>, is_dir: bool) -> FileEntry {
    FileEntry {
        name: name.to_string(),
        size,
        path: name.to_string(),
        is_dir,
        file_id: id.map(|t| t.to_string()),
        pick_code: None,
        folder_id: "t".to_string(),
    }
}

fn pairs(list: &[(&str, &str)]) -> Vec<(String, String)> {
    list.iter().map(|(k, v)| (k.to_string(), v.to_string())).collect()
}

#[test]
fn entries_tell_what_they_are() {
    let m = TmdbResult::Movie(movie(27205, "盗梦空间", 1));
    assert_eq!(m.title(), "盗梦空间");
    assert_eq!(m.original_title(), "盗梦空间 (original)");
    assert_eq!(m.year(), Some(2010));
    assert_eq!(m.overview().as_deref(), Some("about"));
    assert_eq!(m.poster_url().as_deref(), Some("https://image.tmdb.org/t/p/w500/p.jpg"));
    assert_eq!(m.backdrop_url(), None);
    assert_eq!(m.tmdb_id(), 27205);
    assert_eq!(m.media_type(), "movie");
    let t = TmdbResult::Tv(show(1396, "Breaking Bad", 1));
    assert_eq!(t.title(), "Breaking Bad");
    assert_eq!(t.year(), Some(2008));
    assert_eq!(t.poster_url(), None);
    assert_eq!(t.backdrop_url().as_deref(), Some("https://image.tmdb.org/t/p/w500/b.jpg"));
    assert_eq!(t.media_type(), "tv");
}

#[test]
fn years_stand_before_the_first_hyphen() {
    assert_eq!(parse_year(&Some("1999-03-31".to_string())), Some(1999));
    assert_eq!(parse_year(&Some("".to_string())), None);
    assert_eq!(parse_year(&Some("-5".to_string())), None);
    assert_eq!(parse_year(&None), None);
}

#[test]
fn access_needs_a_key() {
    let mut c = config();
    assert!(TmdbClient::new(&c).is_ok());
    c.tmdb_api_key = String::new();
    assert_eq!(TmdbClient::new(&c).unwrap_err(), "TMDB API Key 未配置");
}

#[test]
fn searches_name_title_and_year() {
    let client = TmdbClient::new(&config()).unwrap();
    let call = client.search_movie("Inception", Some(2010));
    assert_eq!(call.url, "https://api.themoviedb.org/3/search/movie");
    assert_eq!(
        call.pairs,
        pairs(&[("api_key", "key"), ("language", "zh-CN"), ("query", "Inception"), ("year", "2010")])
    );
    let call = client.search_tv("三体", None);
    assert_eq!(call.url, "https://api.themoviedb.org/3/search/tv");
    assert_eq!(
        call.pairs,
        pairs(&[("api_key", "key"), ("language", "zh-CN"), ("query", "三体")])
    );
    assert_eq!(client.search_tv("x", Some(1)).pairs[3].0, "first_air_date_year");
    for (call, path) in [
        (client.popular_movies(), "/movie/popular"),
        (client.now_playing_movies(), "/movie/now_playing"),
        (client.upcoming_movies(), "/movie/upcoming"),
        (client.top_rated_movies(), "/movie/top_rated"),
        (client.popular_tv(), "/tv/popular"),
        (client.airing_today_tv(), "/tv/airing_today"),
        (client.top_rated_tv(), "/tv/top_rated"),
        (client.movie_detail(-3), "/movie/-3"),
        (client.tv_detail(12), "/tv/12"),
    ] {
        assert_eq!(call.url, format!("https://api.themoviedb.org/3{}", path));
        assert_eq!(call.pairs.len(), 2);
    }
}

#[test]
fn the_first_of_each_kind_is_considered() {
    let id = |r: Option<TmdbResult>| r.map(|t| (t.media_type(), t.tmdb_id()));
    let movies = || Some(vec![movie(1, "a", 5), movie(2, "b", 9)]);
    assert_eq!(id(smart_search_with_year(movies(), None)), Some(("movie", 1)));
    assert_eq!(id(smart_search_with_year(movies(), Some(vec![]))), Some(("movie", 1)));
    assert_eq!(
        id(smart_search_with_year(movies(), Some(vec![show(7, "t", 5)]))),
        Some(("movie", 1))
    );
    assert_eq!(
        id(smart_search_with_year(movies(), Some(vec![show(7, "t", 6), show(8, "u", 10)]))),
        Some(("tv", 7))
    );
    assert_eq!(
        id(smart_search_with_year(movies(), Some(vec![show(7, "t", 3), show(8, "u", 10)]))),
        Some(("movie", 1))
    );
    assert_eq!(
        id(smart_search_with_year(Some(vec![]), Some(vec![show(7, "t", -3)]))),
        Some(("tv", 7))
    );
    assert_eq!(id(smart_search_with_year(None, Some(vec![]))), None);
}

#[test]
fn searches_are_made_again_without_the_year() {
    let client = TmdbClient::new(&config()).unwrap();
    assert!(client.smart_search("", Some(2010)).is_none());
    let search = client.smart_search("Inception", Some(2011)).unwrap();
    let (movies, shows) = search.requests(&client);
    assert_eq!(movies.pairs.len(), 4);
    assert_eq!(shows.pairs.len(), 4);
    let again = match search.take(Some(vec![]), None) {
        SearchOutcome::Again(next) => next,
        SearchOutcome::Done(_) => panic!("the year was not dropped"),
    };
    assert_eq!(again.year, None);
    assert_eq!(again.title, "Inception");
    match again.take(None, None) {
        SearchOutcome::Done(result) => assert!(result.is_none()),
        SearchOutcome::Again(_) => panic!("there is no year to drop"),
    }
    let search = client.smart_search("Inception", Some(2010)).unwrap();
    match search.take(Some(vec![movie(1, "a", 1)]), None) {
        SearchOutcome::Done(result) => assert_eq!(result.unwrap().tmdb_id(), 1),
        SearchOutcome::Again(_) => panic!("something was found"),
    }
    assert_eq!(truncated(vec![1, 2, 3], 2), vec![1, 2]);
    assert_eq!(truncated(vec![1], 2), vec![1]);
}

#[test]
fn chinese_titles_come_first() {
    assert!(contains_cjk("a中"));
    assert!(contains_cjk("\u{3400}"));
    assert!(contains_cjk("\u{faff}"));
    assert!(!contains_cjk("かな abc"));
    let english = TmdbResult::Movie(movie(1, " Inception ", 1));
    let chinese = TmdbResult::Movie(movie(1, "盗梦空间", 1));
    let blank = TmdbResult::Movie(movie(1, "  ", 1));
    assert_eq!(preferred_title(Some(&english), Some("盗梦")), "盗梦");
    assert_eq!(preferred_title(Some(&english), Some("dream")), "Inception");
    assert_eq!(preferred_title(Some(&chinese), Some("盗梦")), "盗梦空间");
    assert_eq!(preferred_title(Some(&blank), Some(" dream ")), "dream");
    assert_eq!(preferred_title(None, Some(" ")), "");
    assert_eq!(preferred_title(None, None), "");
}

#[test]
fn file_names_hold_nothing_illegal() {
    let name = sanitize_name(" a/b\\c:d*e?f\"g<h>i|j ");
    assert_eq!(name, "a_b_c_d_e_f_g_h_i_j");
    assert_eq!(sanitize_name(&name), name);
    assert_eq!(sanitize_name("  "), "");
}

#[test]
fn standard_names() {
    let film = TmdbResult::Movie(movie(27205, "Inception", 1));
    let series = TmdbResult::Tv(show(1396, "Breaking: Bad", 1));
    assert_eq!(
        build_standard_name("inception.2009.1080p.mkv", Some(&film)).as_deref(),
        Some("Inception (2010) - 1080p - {tmdb_id=27205}.mkv")
    );
    assert_eq!(
        build_standard_name("Breaking.Bad.S03E07.1080p.mkv", Some(&series)).as_deref(),
        Some("Breaking_ Bad (2008) - S03E07 - 1080p.mkv")
    );
    assert_eq!(
        build_standard_name("Show.EP5.mkv", None).as_deref(),
        Some("Show - E05.mkv")
    );
    assert_eq!(build_standard_name("noextension", Some(&film)), None);
    assert_eq!(build_standard_name("1080p.mkv", None), None);
    let said = ParsedFileName {
        title: "T".to_string(),
        year: Some(1999),
        season: Some(12),
        episode: None,
        quality: None,
        ext: "mp4".to_string(),
    };
    assert_eq!(standard_name_of(&said, None).as_deref(), Some("T (1999).mp4"));
}

#[test]
fn unwanted_files_are_deleted() {
    let c = config();
    let o = Organizer::new(&c);
    let mb = 1024 * 1024;
    assert!(o.should_delete(&file("www.x.mkv", 500 * mb, Some("1"), false)));
    assert!(o.should_delete(&file("a.NFO", 1, Some("1"), false)));
    assert!(o.should_delete(&file("a.url", 1, Some("1"), false)));
    assert!(o.should_delete(&file("a.mkv", 100 * mb - 1, Some("1"), false)));
    assert!(!o.should_delete(&file("a.mkv", 100 * mb, Some("1"), false)));
    assert!(!o.should_delete(&file("a.mkv", 0, Some("1"), false)));
    assert!(!o.should_delete(&file("a.srt", 1, Some("1"), false)));
    let mut c = config();
    c.clean_min_video_size_mb = u64::MAX;
    assert!(Organizer::new(&c).should_delete(&file("a.mkv", i64::MAX, Some("1"), false)));
}

#[test]
fn resources_have_a_folder_of_their_own() {
    let mut c = config();
    let film = TmdbResult::Movie(movie(27205, "Inception", 1));
    let series = TmdbResult::Tv(show(1396, "Breaking Bad", 1));
    match Organizer::new(&c).ensure_target_folder(Some(&film), None) {
        TargetFolder::Ready(folder) => assert_eq!(folder, ""),
        TargetFolder::Create { .. } => panic!("no folder is configured"),
    }
    c.account_115_root_folder_id = "77".to_string();
    let o = Organizer::new(&c);
    match o.ensure_target_folder(None, None) {
        TargetFolder::Ready(folder) => assert_eq!(folder, "77"),
        TargetFolder::Create { .. } => panic!("nothing is known"),
    }
    match o.ensure_target_folder(Some(&film), None) {
        TargetFolder::Create { parent, name, inside } => {
            assert_eq!(parent, "77");
            assert_eq!(name, "Movies");
            assert_eq!(inside.as_deref(), Some("Inception (2010)"));
        }
        TargetFolder::Ready(_) => panic!("the film is known"),
    }
    let said = ParsedFileName { title: "绝命毒师".to_string(), ..ParsedFileName::default() };
    match o.ensure_target_folder(Some(&series), Some(&said)) {
        TargetFolder::Create { parent, name, inside } => {
            assert_eq!(parent, "77");
            assert_eq!(name, "TV");
            assert_eq!(inside.as_deref(), Some("绝命毒师 (2008) {tmdb_id=1396}"));
        }
        TargetFolder::Ready(_) => panic!("the series is known"),
    }
    let text = |t: &str| Some(t.to_string());
    for (created, folder) in [(text("5"), "5"), (None, "77")] {
        match o.created(text("film"), created.clone()) {
            TargetFolder::Create { parent, name, inside } => {
                assert_eq!(parent, folder);
                assert_eq!(name, "film");
                assert_eq!(inside, None);
            }
            TargetFolder::Ready(_) => panic!("a folder is left to create"),
        }
        match o.created(None, created) {
            TargetFolder::Ready(ready) => assert_eq!(ready, folder),
            TargetFolder::Create { .. } => panic!("no folder is left to create"),
        }
    }
}

#[test]
fn files_are_deleted_or_renamed_and_moved() {
    let c = config();
    let film = TmdbResult::Movie(movie(27205, "Inception", 1));
    let gb = 1024 * 1024 * 1024;
    let files = vec![
        file("Inception.2010.mkv", gb, Some("1"), false),
        file("dir", 0, Some("2"), true),
        file("ad www.x.txt", 1, Some("3"), false),
        file("notes.srt", 1, Some("4"), false),
        file("unknown.mkv", gb, None, false),
    ];
    let told = |steps: &[OrganizeStep]| -> Vec<String> {
        steps
            .iter()
            .map(|step| match step {
                OrganizeStep::Delete { file_id } => format!("delete {}", file_id),
                OrganizeStep::Keep(k) => {
                    format!("keep {} {:?} {} {}", k.file_id, k.new_name, k.folder_id, k.target)
                }
            })
            .collect()
    };
    assert_eq!(
        told(&Organizer::new(&c).organize(&files, Some(&film), "9")),
        vec![
            "keep 1 Some(\"Inception (2010) - {tmdb_id=27205}.mkv\") t 9",
            "delete 3",
            "keep 4 None t 9"
        ]
    );
    for root in ["0", ""] {
        let steps = Organizer::new(&c).organize(&files, None, root);
        assert_eq!(told(&steps)[2], "keep 4 None t 0");
    }
}

fn kept_file(new_name: Option<&str>, target: &str) -> KeptFile {
    KeptFile {
        file_id: "1".to_string(),
        name: "old.mkv".to_string(),
        new_name: new_name.map(|n| n.to_string()),
        folder_id: "200".to_string(),
        target: target.to_string(),
    }
}

#[test]
fn results_tell_what_came_of_files() {
    let r = kept_file(Some("new.mkv"), "9").outcome(true, true);
    assert_eq!((r.file_id.as_str(), r.final_name.as_str()), ("1", "new.mkv"));
    assert_eq!((r.folder_id.as_str(), r.moved), ("9", true));
    let r = kept_file(Some("new.mkv"), "9").outcome(false, true);
    assert_eq!(r.final_name, "old.mkv");
    let r = kept_file(Some("new.mkv"), "9").outcome(true, false);
    assert_eq!((r.final_name.as_str(), r.folder_id.as_str()), ("new.mkv", "200"));
    assert!(!r.moved);
    let r = kept_file(None, "0").outcome(false, true);
    assert_eq!((r.final_name.as_str(), r.folder_id.as_str()), ("old.mkv", "0"));
}

#[test]
fn plans_follow_from_names() {
    assert!(junk_extension("lnk"));
    assert!(!junk_extension("mkv"));
    let c = config();
    assert!(Organizer::new(&c).too_small(1));
    assert!(!Organizer::new(&c).too_small(0));
    let f = file("a.mkv", 5, Some("1"), false);
    match plan_step(&f, true, "b.mkv".to_string(), "9") {
        Some(OrganizeStep::Delete { file_id }) => assert_eq!(file_id, "1"),
        _ => panic!("the file is unwanted"),
    }
    match plan_step(&f, false, "a.mkv".to_string(), "") {
        Some(OrganizeStep::Keep(k)) => {
            assert_eq!(k.new_name, None);
            assert_eq!(k.target, "0");
        }
        _ => panic!("the file is wanted"),
    }
    match plan_step(&f, false, "b.mkv".to_string(), "9") {
        Some(OrganizeStep::Keep(k)) => {
            assert_eq!(k.name, "a.mkv");
            assert_eq!(k.new_name.as_deref(), Some("b.mkv"));
            assert_eq!(k.target, "9");
            assert_eq!(k.folder_id, "t");
        }
        _ => panic!("the file is wanted"),
    }
    assert!(plan_step(&file("d", 0, Some("1"), true), true, "d".to_string(), "9").is_none());
}

#[test]
fn shares_are_counted_by_minute_hour_and_day() {
    let keys = share_keys(1431648000 + 3723).unwrap();
    assert_eq!(keys.minute, "hidden:share:min:201505150102");
    assert_eq!(keys.hour, "hidden:share:hour:2015051501");
    assert_eq!(keys.day, "hidden:share:day:20150515");
    assert!(share_keys(i64::MAX).is_none());
    let counted = record_share_created(&keys);
    assert_eq!(counted[0].key, keys.minute);
    assert_eq!(counted[0].ttl_secs, 90);
    assert_eq!(counted[1].ttl_secs, 3660);
    assert_eq!(counted[2].ttl_secs, 86460);
}

#[test]
fn shares_are_refused_at_the_limit() {
    let limits = share_limits(&config());
    assert_eq!(limits, ShareLimits { per_minute: 2, per_hour: 20, per_day: 100 });
    let counts = get_share_counts(Some(1), None, Some(99));
    assert_eq!(counts, ShareCounts { minute: 1, hour: 0, day: 99 });
    assert!(check_share_rate(Some(counts), limits));
    assert!(!check_share_rate(Some(ShareCounts { minute: 2, hour: 0, day: 0 }), limits));
    assert!(!check_share_rate(Some(ShareCounts { minute: 0, hour: 20, day: 0 }), limits));
    assert!(!check_share_rate(Some(ShareCounts { minute: 0, hour: 0, day: 100 }), limits));
    assert!(check_share_rate(None, limits));
}

#[test]
fn waits_are_between_their_bounds() {
    let c = config();
    let mut seen = Vec::new();
    for _ in 0..200 {
        let wait = share_pause(&c);
        assert!(30_000 <= wait && wait <= 45_000);
        seen.push(wait);
    }
    seen.sort();
    seen.dedup();
    assert!(seen.len() > 1);
    assert_eq!(pause_for(2000, 3, 7), 2007);
    assert_eq!(pause_for(2000, 3, 3001), 2000);
    assert_eq!(pause_for(2000, 0, 99), 2000);
    assert_eq!(pause(5, 0), 5);
    let mut c = config();
    c.share_min_interval_secs = u64::MAX;
    assert!(share_pause(&c) >= u64::MAX as u128 * 1000);
}

#[test]
fn shares_keep_their_interval() {
    let c = config();
    assert_eq!(since_last_share(None, 5), None);
    assert_eq!(since_last_share(Some(1_000), 11_000), Some(10_000));
    assert_eq!(since_last_share(Some(11_000), 1_000), Some(0));
    assert_eq!(since_last_share(Some(i64::MIN), i64::MAX), Some(u64::MAX));
    assert_eq!(interval_wait(&c, None), 0);
    assert_eq!(interval_wait(&c, Some(0)), 30_000);
    assert_eq!(interval_wait(&c, Some(10_000)), 20_000);
    assert_eq!(interval_wait(&c, Some(30_000)), 0);
    assert_eq!(interval_wait(&c, Some(30_001)), 0);
}

