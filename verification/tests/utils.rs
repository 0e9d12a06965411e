use hidden::pattern::PatternMatch;
use hidden::text;
use hidden::text::number::{
    decimal_i64, decimal_u64, parse_i32, parse_i64, parse_u16, parse_u32, parse_u64, two_digits_i32,
};
use hidden::text::path::{extension, stem};
use hidden::utils::{
    assemble, clean_title, format_size, is_ad_file, is_subtitle_file, is_video_file,
    parse_file_name, ParsedFileName, RE_QUALITY, RE_SEASON_EPISODE, RE_TECH_CUT, RE_YEAR,
};

#[test]
fn test_parse_season_episode() {
    let parsed = parse_file_name("Breaking.Bad.S03E07.1080p.mkv");
    assert_eq!(parsed.season, Some(3));
    assert_eq!(parsed.episode, Some(7));
    assert_eq!(parsed.quality.as_deref(), Some("1080p"));
    assert_eq!(parsed.ext, "mkv");
}

#[test]
fn test_parse_year() {
    let parsed = parse_file_name("Inception.2010.BluRay.1080p.mkv");
    assert_eq!(parsed.year, Some(2010));
}

#[test]
fn test_is_video() {
    assert!(is_video_file("movie.mkv"));
    assert!(is_video_file("clip.mp4"));
    assert!(!is_video_file("cover.jpg"));
}

#[test]
fn test_format_size() {
    assert_eq!(format_size(1024 * 1024 * 1024), "1.00 GB");
    assert_eq!(format_size(1024 * 1024), "1.00 MB");
    assert_eq!(format_size(500), "500 B");
}

#[test]
fn patterns_are_regular_expressions() {
    for pattern in [RE_SEASON_EPISODE, RE_YEAR, RE_QUALITY, RE_TECH_CUT] {
        assert!(regex::Regex::new(pattern).is_ok());
    }
}

#[test]
fn pattern_groups_are_named_in_order() {
    let re = regex::Regex::new(RE_SEASON_EPISODE).unwrap();
    let names: Vec<Option<&str>> = re.capture_names().collect();
    assert_eq!(
        names,
        vec![None, Some("s1"), Some("e1"), Some("s2"), Some("e2"), Some("e3"), Some("e4")]
    );
    let re = regex::Regex::new(RE_YEAR).unwrap();
    assert_eq!(re.capture_names().collect::<Vec<_>>(), vec![None, Some("y")]);
    let re = regex::Regex::new(RE_QUALITY).unwrap();
    assert_eq!(re.capture_names().collect::<Vec<_>>(), vec![None, Some("q")]);
}

#[test]
fn titles_stand_before_the_first_tag() {
    assert_eq!(parse_file_name("Breaking.Bad.S03E07.1080p.mkv").title, "Breaking Bad");
    assert_eq!(parse_file_name("Inception.2010.BluRay.1080p.mkv").title, "Inception");
    assert_eq!(parse_file_name("The_Matrix_1080p_x264.mp4").title, "The Matrix");
    assert_eq!(parse_file_name("流浪地球2.2023.2160p.WEB-DL.mkv").title, "流浪地球2");
    assert_eq!(parse_file_name("Movie DV.mkv").title, "Movie");
    assert_eq!(parse_file_name("Movie DVD night.mkv").title, "Movie DVD night");
    assert_eq!(parse_file_name("1080p.mkv").title, "");
}

#[test]
fn names_without_tags_are_titles() {
    let parsed = parse_file_name("纪录片.mkv");
    assert_eq!(parsed.title, "纪录片");
    assert_eq!(parsed.year, None);
    assert_eq!(parsed.season, None);
    assert_eq!(parsed.episode, None);
    assert_eq!(parsed.quality, None);
    let empty = parse_file_name("");
    assert_eq!(empty.title, "");
    assert_eq!(empty.ext, "");
}

#[test]
fn chinese_seasons_and_episodes() {
    let parsed = parse_file_name("三体.第1季.第12集.4K.mkv");
    assert_eq!(parsed.title, "三体");
    assert_eq!(parsed.season, Some(1));
    assert_eq!(parsed.episode, Some(12));
    assert_eq!(parsed.quality.as_deref(), Some("4K"));
    let parsed = parse_file_name("三体 第05话.mp4");
    assert_eq!(parsed.season, None);
    assert_eq!(parsed.episode, Some(5));
    let parsed = parse_file_name("Show.EP07.mkv");
    assert_eq!(parsed.season, None);
    assert_eq!(parsed.episode, Some(7));
}

#[test]
fn extensions_are_in_lower_case() {
    assert_eq!(parse_file_name("Film.2001.MKV").ext, "mkv");
    assert!(is_video_file("FILM.MKV"));
    assert!(is_subtitle_file("film.SRT"));
    assert!(!is_subtitle_file("film.mkv"));
    assert!(!is_video_file("mkv"));
    assert!(!is_video_file(".mkv"));
    assert!(is_video_file("disc.M2TS"));
}

#[test]
fn advertising_is_found_by_its_words() {
    assert!(is_ad_file("WWW.example.txt"));
    assert!(is_ad_file("visit example.COM now.mp4"));
    assert!(is_ad_file("最新广告.mp4"));
    assert!(is_ad_file("关注公众号.jpg"));
    assert!(!is_ad_file("Inception.2010.mkv"));
    for name in ["WWW.", ".Net", "最新广告", "字幕组"] {
        assert!(is_ad_file(name));
        assert!(is_ad_file(&format!("电影 A{}b.mkv", name)));
    }
}

#[test]
fn assembling_from_matches() {
    let m = |start: usize, groups: Vec<Option<&str>>| {
        Some(PatternMatch {
            start,
            groups: groups.into_iter().map(|g| g.map(|t| t.to_string())).collect(),
        })
    };
    let parsed = assemble(
        "mkv".to_string(),
        "A [Film] 2001 S02E03 1080p",
        m(21, vec![Some("1080p"), Some("1080p")]),
        m(14, vec![Some("S02E03"), Some("02"), Some("03"), None, None, None, None]),
        m(8, vec![Some(" 2001 "), Some("2001")]),
        m(20, vec![Some(" 1080p")]),
    );
    assert_eq!(parsed.title, "A Film");
    assert_eq!(parsed.year, Some(2001));
    assert_eq!(parsed.season, Some(2));
    assert_eq!(parsed.episode, Some(3));
    assert_eq!(parsed.quality.as_deref(), Some("1080p"));
    assert_eq!(parsed.ext, "mkv");
    let bare = assemble("".to_string(), "x  y", None, None, None, None);
    assert_eq!(bare.title, "x y");
    assert_eq!(bare.season, None);
}

#[test]
fn default_name_says_nothing() {
    let name = ParsedFileName::default();
    assert_eq!(name.title, "");
    assert_eq!(name.year, None);
    assert_eq!(name.ext, "");
}

#[test]
fn cleaned_titles_stay_as_they_are() {
    for raw in ["[组]【一】 the-film_(x) ", "  a.b  ", "", "----", "《片名》 第一部"] {
        let once = clean_title(raw);
        assert_eq!(clean_title(&once), once);
        assert_eq!(once.trim(), once);
    }
    assert_eq!(clean_title("[组]【一】 the-film_(x) "), "组 一 the film x");
}

#[test]
fn sizes_read_as_rounded_quotients() {
    let by_division = |bytes: i64| -> String {
        let gb = 1024i64 * 1024 * 1024;
        let mb = 1024i64 * 1024;
        if bytes >= gb {
            format!("{:.2} GB", bytes as f64 / gb as f64)
        } else if bytes >= mb {
            format!("{:.2} MB", bytes as f64 / mb as f64)
        } else if bytes >= 1024 {
            format!("{:.1} KB", bytes as f64 / 1024f64)
        } else {
            format!("{} B", bytes)
        }
    };
    let mut samples: Vec<i64> = vec![
        0, 1, -1, -500, 1023, 1024, 1025, 1075, 1126, 1076, 1024 * 1024 - 1, 1024 * 1024 + 5243,
        i64::MAX, i64::MAX - 1, i64::MIN, 9007199254740993, 9007199254740991, 5368709120,
        1024 * 1024 * 1024 - 1,
    ];
    let mut x: u64 = 88172645463325252;
    for _ in 0..3000 {
        x ^= x << 13;
        x ^= x >> 7;
        x ^= x << 17;
        samples.push((x >> (x % 63)) as i64);
    }
    for n in 0..2000i64 {
        samples.push(1024 + n * 51 / 10);
        samples.push(1024 * 1024 + n * 2621);
        samples.push(1024 * 1024 * 1024 + n * 2684355);
    }
    for bytes in samples {
        assert_eq!(format_size(bytes), by_division(bytes), "{}", bytes);
    }
    assert_eq!(format_size(1536), "1.5 KB");
    assert_eq!(format_size(5 * 1024 * 1024 * 1024 + 512 * 1024 * 1024), "5.50 GB");
}

#[test]
fn white_space_is_that_of_unicode() {
    for n in 0..=0x10ffffu32 {
        if let Some(c) = char::from_u32(n) {
            assert_eq!(text::white(c), c.is_whitespace(), "{:x}", n);
        }
    }
    assert_eq!(text::trim("\u{3000} a b\t\n"), "a b");
    let chars: Vec<char> = " a\tbc  d ".chars().collect();
    assert_eq!(text::split_words(&chars), vec!["a", "bc", "d"]);
}

#[test]
fn paths_are_taken_apart_as_by_the_standard_library() {
    for name in [
        "a.mkv", "a", ".a", "a.", "a.b.c", "..", ".", "", "/", "d/a.b", "d.x/a", "d/..", "d/.", "a/b/",
        "...", "..a", "x/.h.y", "a//b.c", "./a.b", "无.后缀", "a.b/.", "a./", "/..",
    ] {
        let path = std::path::Path::new(name);
        let ext = path.extension().and_then(|e| e.to_str()).unwrap_or("");
        let file_stem = path.file_stem().and_then(|s| s.to_str()).unwrap_or(name);
        assert_eq!(extension(name), ext, "{:?}", name);
        assert_eq!(stem(name), file_stem, "{:?}", name);
    }
}

#[test]
fn numbers_are_read_as_by_the_standard_library() {
    for s in [
        "", "0", "1", "-1", "+1", "007", "12a", " 1", "1 ", "-", "+", "--1", "+-1", "65535", "65536",
        "4294967295", "4294967296", "18446744073709551615", "18446744073709551616",
        "9223372036854775807", "9223372036854775808", "-9223372036854775808",
        "-9223372036854775809", "2147483647", "2147483648", "-2147483648", "-2147483649", "-0", "１",
        "00000000000000000000000000000012",
    ] {
        assert_eq!(parse_u16(s), s.parse::<u16>().ok(), "{:?}", s);
        assert_eq!(parse_u32(s), s.parse::<u32>().ok(), "{:?}", s);
        assert_eq!(parse_u64(s), s.parse::<u64>().ok(), "{:?}", s);
        assert_eq!(parse_i64(s), s.parse::<i64>().ok(), "{:?}", s);
        assert_eq!(parse_i32(s), s.parse::<i32>().ok(), "{:?}", s);
    }
    for n in [0u64, 9, 10, 99, 1_000_000, u64::MAX] {
        assert_eq!(decimal_u64(n), n.to_string());
    }
    for n in [0i64, -1, 10, i64::MIN, i64::MAX] {
        assert_eq!(decimal_i64(n), n.to_string());
        assert_eq!(parse_i64(&decimal_i64(n)), Some(n));
    }
    for n in [0i32, 5, 9, 10, 123, -3, i32::MIN] {
        assert_eq!(two_digits_i32(n), format!("{:02}", n));
    }
}

#[test]
fn texts_are_searched_as_by_the_standard_library() {
    for (s, p) in [("abcabc", "ca"), ("", ""), ("abc", ""), ("abc", "abcd"), ("a115.com", "115.com")] {
        assert_eq!(text::contains(s, p), s.contains(p));
        assert_eq!(text::starts_with(s, p), s.starts_with(p));
        assert_eq!(text::has_suffix(s, p), s.ends_with(p));
        let split = s.split_once(p).map(|(a, b)| (a.to_string(), b.to_string()));
        assert_eq!(text::split_once(s, p), split);
    }
    for s in ["", "a&b", "&", "a&&b&"] {
        let pieces: Vec<String> = s.split('&').map(|p| p.to_string()).collect();
        assert_eq!(text::split(s, '&'), pieces);
        assert_eq!(text::join(&pieces, "&"), s);
    }
}
