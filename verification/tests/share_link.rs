use hidden::share_link::{clean_link, is_share_link, pick_code_in, share_id};

#[test]
fn shares_are_named_behind_their_mark() {
    assert_eq!(share_id("https://115.com/s/abc123").as_deref(), Some("abc123"));
    assert_eq!(share_id("https://115.com/s/abc?password=xy").as_deref(), Some("abc"));
    assert_eq!(share_id("https://115cdn.com/s/abc#top").as_deref(), Some("abc"));
    assert_eq!(share_id("https://115.com/s/ abc ?x").as_deref(), Some("abc"));
    assert_eq!(share_id("https://115.com/s/"), None);
    assert_eq!(share_id("https://115.com/s/?password=xy"), None);
    assert_eq!(share_id("https://115.com/x/abc"), None);
    assert_eq!(share_id(""), None);
}

#[test]
fn share_links_are_those_of_the_drive() {
    for url in [
        "https://115.com/s/abc",
        "http://115cdn.com/s/abc?password=xy",
        "https://www.115.com/s/abc",
        "115.com/s/abc",
        "https://user@115.com:443/s/abc",
        "115.com/s/abc?password=://x",
        "https://115.com/s/abc?next=https://example.com",
    ] {
        assert!(is_share_link(url), "{}", url);
    }
    for url in [
        "https://115.com/abc",
        "https://example.com/s/abc",
        "https://example.com/s/abc?from=115.com",
        "https://not115.com/s/abc",
        "https://115.com.example.org/s/abc",
        "https://115.com@example.org/s/abc",
        "evil.example/s/abc?u=://115.com",
        "evil.example/s/abc#://115.com",
        "evil.example/s/://115.com",
        "",
    ] {
        assert!(!is_share_link(url), "{}", url);
    }
}

#[test]
fn codes_are_found_under_their_names() {
    assert_eq!(pick_code_in("https://115.com/s/a?password=xy12").as_deref(), Some("xy12"));
    assert_eq!(pick_code_in("https://115.com/s/a?k=v&pwd=p").as_deref(), Some("p"));
    assert_eq!(pick_code_in("https://115.com/s/a?pick_code=q").as_deref(), Some("q"));
    assert_eq!(pick_code_in("https://115.com/s/a?code=c&password=p").as_deref(), Some("c"));
    assert_eq!(pick_code_in("https://115.com/s/a?password=&code=c").as_deref(), Some("c"));
    assert_eq!(pick_code_in("https://115.com/s/a?password"), None);
    assert_eq!(pick_code_in("https://115.com/s/a?Password=x"), None);
    assert_eq!(pick_code_in("https://115.com/s/a"), None);
}

#[test]
fn stored_links_hold_no_code() {
    assert_eq!(clean_link("https://115.com/s/a?password=xy"), "https://115.com/s/a");
    assert_eq!(clean_link("https://115.com/s/a?k=v&password=xy&z"), "https://115.com/s/a?k=v&z");
    assert_eq!(clean_link("https://115.com/s/a?pwd=&code=1&pick_code=2"), "https://115.com/s/a");
    assert_eq!(clean_link("https://115.com/s/a?passwords=1"), "https://115.com/s/a?passwords=1");
    assert_eq!(clean_link("https://115.com/s/a?"), "https://115.com/s/a?");
    assert_eq!(clean_link("https://115.com/s/a"), "https://115.com/s/a");
}

#[test]
fn cleaning_twice_is_cleaning_once() {
    for url in [
        "https://115.com/s/a?k=v&password=xy&z",
        "https://115.com/s/a?password=xy",
        "https://115.com/s/a?a?password=1&b",
        "a?&&",
    ] {
        let once = clean_link(url);
        assert_eq!(clean_link(&once), once);
        assert_eq!(pick_code_in(&once), None);
        assert_eq!(share_id(&once), share_id(url));
        assert_eq!(is_share_link(&once), is_share_link(url));
    }
}
