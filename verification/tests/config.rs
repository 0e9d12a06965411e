use hidden::api::settings::{update_settings, UpdateSettingsBody};
use hidden::config::{Config, ConfigError};
use hidden::state::{load_settings, AppState};
use hidden::text_map::TextMap;

fn env(pairs: &[(&str, &str)]) -> TextMap {
    let mut map = TextMap::new();
    for (k, v) in pairs {
        map.insert(k.to_string(), v.to_string());
    }
    map
}

/// The variables that have to be set, and others.
fn with_required(others: &[(&str, &str)]) -> TextMap {
    let mut map = env(&[
        ("DATABASE_URL", "postgres://db"),
        ("ACCOUNT_115_COOKIE", ""),
        ("TMDB_API_KEY", ""),
        ("JWT_SECRET", "sign"),
    ]);
    for (k, v) in others {
        map.insert(k.to_string(), v.to_string());
    }
    map
}

fn config() -> Config {
    Config::from_env(&with_required(&[])).unwrap()
}

fn state() -> AppState {
    AppState { config: config(), settings: TextMap::new() }
}

#[test]
fn defaults_hold_where_nothing_is_set() {
    let c = config();
    assert_eq!(c.host, "0.0.0.0");
    assert_eq!(c.port, 8080);
    assert_eq!(c.app_env, "development");
    assert_eq!(c.database_url, "postgres://db");
    assert_eq!(c.redis_url, "redis://127.0.0.1:6379");
    assert_eq!(c.account_115_cookie, "");
    assert_eq!(c.account_115_root_folder_id, "");
    assert_eq!(c.account_115_temp_folder_id, "");
    assert_eq!(c.account_115_request_interval_ms, 1500);
    assert_eq!(c.account_115_retry_times, 3);
    assert_eq!(c.tmdb_api_key, "");
    assert_eq!(c.tmdb_language, "zh-CN");
    assert_eq!(c.jwt_expiration_hours, 24);
    assert_eq!(c.transfer_max_size_gb, 80);
    assert_eq!(c.transfer_max_file_count, 200);
    assert_eq!(c.transfer_min_free_space_gb, 20);
    assert_eq!(c.share_max_create_per_minute, 2);
    assert_eq!(c.share_max_create_per_hour, 20);
    assert_eq!(c.share_max_create_per_day, 100);
    assert_eq!(c.share_min_interval_secs, 30);
    assert_eq!(c.share_random_jitter_secs, 15);
    assert_eq!(c.clean_min_video_size_mb, 100);
    assert!(!c.is_production());
}

#[test]
fn variables_are_read() {
    let c = Config::from_env(&with_required(&[
        ("DATABASE_URL", ""),
        ("ACCOUNT_115_COOKIE", "UID=1"),
        ("TMDB_API_KEY", "key"),
        ("HOST", "::1"),
        ("PORT", "9000"),
        ("APP_ENV", "production"),
        ("TRANSFER_MAX_SIZE_GB", "0"),
        ("SHARE_MAX_CREATE_PER_HOUR", "7"),
        ("ACCOUNT_115_RETRY_TIMES", "no number"),
        ("CLEAN_MIN_VIDEO_SIZE_MB", "-1"),
    ]))
    .unwrap();
    assert_eq!(c.database_url, "");
    assert_eq!(c.account_115_cookie, "UID=1");
    assert_eq!(c.tmdb_api_key, "key");
    assert_eq!(c.jwt_secret, "sign");
    assert_eq!(c.host, "::1");
    assert_eq!(c.port, 9000);
    assert!(c.is_production());
    assert_eq!(c.transfer_max_size_gb, 0);
    assert_eq!(c.share_max_create_per_hour, 7);
    assert_eq!(c.account_115_retry_times, 3);
    assert_eq!(c.clean_min_video_size_mb, 100);
}

#[test]
fn four_variables_have_to_be_set() {
    let mut map = env(&[("HOST", "x")]);
    for (key, error) in [
        ("DATABASE_URL", ConfigError::MissingDatabaseUrl),
        ("ACCOUNT_115_COOKIE", ConfigError::MissingCookie),
        ("TMDB_API_KEY", ConfigError::MissingTmdbKey),
        ("JWT_SECRET", ConfigError::MissingJwtSecret),
    ] {
        let e = Config::from_env(&map).unwrap_err();
        assert_eq!(e, error);
        assert_eq!(e.message(), format!("{} 未配置", key));
        map.insert(key.to_string(), "x".to_string());
    }
    assert!(Config::from_env(&map).is_ok());
}

#[test]
fn port_has_to_fit() {
    let c = Config::from_env(&with_required(&[("PORT", "65536")])).unwrap();
    assert_eq!(c.port, 8080);
}

#[test]
fn settings_are_read_back_and_taken_away() {
    let mut s = state();
    assert_eq!(s.get_setting("tmdb_api_key"), None);
    s.apply_setting("tmdb_api_key", "secret");
    s.apply_setting("other", "1");
    assert_eq!(s.get_setting("tmdb_api_key").as_deref(), Some("secret"));
    s.apply_setting("tmdb_api_key", "");
    assert_eq!(s.get_setting("tmdb_api_key"), None);
    assert_eq!(s.get_setting("other").as_deref(), Some("1"));
}

#[test]
fn settings_override_the_configuration() {
    let mut s = state();
    for (k, v) in [
        ("account_115_cookie", "UID=1"),
        ("account_115_root_folder_id", "11"),
        ("account_115_temp_folder_id", "22"),
        ("account_115_request_interval_ms", "10"),
        ("account_115_retry_times", "1"),
        ("tmdb_api_key", "k"),
        ("tmdb_language", "en-US"),
        ("transfer_max_size_gb", "1"),
        ("transfer_max_file_count", "2"),
        ("transfer_min_free_space_gb", "3"),
        ("share_max_create_per_minute", "4"),
        ("share_max_create_per_hour", "5"),
        ("share_max_create_per_day", "6"),
        ("share_min_interval_secs", "7"),
        ("share_random_jitter_secs", "8"),
        ("clean_min_video_size_mb", "9"),
        ("host", "ignored"),
    ] {
        s.apply_setting(k, v);
    }
    let c = s.runtime_config();
    assert_eq!(c.account_115_cookie, "UID=1");
    assert_eq!(c.account_115_root_folder_id, "11");
    assert_eq!(c.account_115_temp_folder_id, "22");
    assert_eq!(c.account_115_request_interval_ms, 10);
    assert_eq!(c.account_115_retry_times, 1);
    assert_eq!(c.tmdb_api_key, "k");
    assert_eq!(c.tmdb_language, "en-US");
    assert_eq!(c.transfer_max_size_gb, 1);
    assert_eq!(c.transfer_max_file_count, 2);
    assert_eq!(c.transfer_min_free_space_gb, 3);
    assert_eq!(c.share_max_create_per_minute, 4);
    assert_eq!(c.share_max_create_per_hour, 5);
    assert_eq!(c.share_max_create_per_day, 6);
    assert_eq!(c.share_min_interval_secs, 7);
    assert_eq!(c.share_random_jitter_secs, 8);
    assert_eq!(c.clean_min_video_size_mb, 9);
    assert_eq!(c.host, "0.0.0.0");
    let adapter = s.build_adapter();
    assert_eq!(adapter.cookie, "UID=1");
    assert_eq!(adapter.config.account_115_retry_times, 1);
    s.apply_setting("account_115_retry_times", "many");
    assert_eq!(s.runtime_config().account_115_retry_times, 3);
}

#[test]
fn stored_rows_are_loaded() {
    let rows = [("a", "1"), ("b", ""), ("a", "2")];
    let map = load_settings(rows.iter().map(|(k, v)| (k.to_string(), v.to_string())).collect());
    assert_eq!(map.len(), 1);
    assert_eq!(map.get("a").as_deref(), Some("2"));
    assert_eq!(map.get("b"), None);
}

#[test]
fn settings_are_made_as_far_as_they_were_written() {
    let mut s = state();
    s.apply_setting("c", "old");
    let body = UpdateSettingsBody {
        settings: vec![
            ("a".to_string(), "1".to_string()),
            ("c".to_string(), "".to_string()),
            ("b".to_string(), "2".to_string()),
        ],
    };
    assert_eq!(update_settings(&mut s, &body, 2), 2);
    assert_eq!(s.get_setting("a").as_deref(), Some("1"));
    assert_eq!(s.get_setting("b"), None);
    assert_eq!(s.get_setting("c"), None);
    assert_eq!(update_settings(&mut s, &body, 3), 3);
    assert_eq!(s.get_setting("b").as_deref(), Some("2"));
}
