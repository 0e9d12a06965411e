//! Laws of the configuration and of the settings that override it.

use vstd::prelude::*;

#[allow(unused_imports)]
use crate::adapters::adapter_115::Adapter115;
#[allow(unused_imports)]
use crate::api::settings::with_settings;
#[allow(unused_imports)]
use crate::config::{configured, missing, Config, ConfigError};
#[allow(unused_imports)]
use crate::state::{loaded, overridden, setting_of, with_setting, AppState};
#[allow(unused_imports)]
use crate::text::number::unsigned_value;
#[allow(unused_imports)]
use crate::text_map::TextMap;

verus! {

/// Whether a text is the one under a name, or the default where there is none.
pub open spec fn is_text_under(
    v: Seq<char>,
    texts: Map<Seq<char>, Seq<char>>,
    key: Seq<char>,
    default: Seq<char>,
) -> bool {
    &&& texts.dom().contains(key) ==> v == texts[key]
    &&& !texts.dom().contains(key) ==> v == default
}

/// Whether a number is the one under a name, or the default where there is none, or none that is
/// small enough.
pub open spec fn is_number_under(
    v: int,
    texts: Map<Seq<char>, Seq<char>>,
    key: Seq<char>,
    max: int,
    default: int,
) -> bool {
    &&& texts.dom().contains(key) ==> match unsigned_value(texts[key]) {
        Some(n) => if n <= max {
            v == n
        } else {
            v == default
        },
        None => v == default,
    }
    &&& !texts.dom().contains(key) ==> v == default
}

/// Each part of the configuration is read from the variable that is called like it, in capitals;
/// what is not set, or is no number where one is due, has a default.
pub proof fn each_variable_has_its_part(env: Map<Seq<char>, Seq<char>>)
    ensures
        configured(env).database_url == env["DATABASE_URL"@],
        configured(env).account_115_cookie == env["ACCOUNT_115_COOKIE"@],
        configured(env).tmdb_api_key == env["TMDB_API_KEY"@],
        configured(env).jwt_secret == env["JWT_SECRET"@],
        is_text_under(configured(env).host, env, "HOST"@, "0.0.0.0"@),
        is_text_under(configured(env).app_env, env, "APP_ENV"@, "development"@),
        is_text_under(configured(env).redis_url, env, "REDIS_URL"@, "redis://127.0.0.1:6379"@),
        is_text_under(configured(env).account_115_root_folder_id, env, "ACCOUNT_115_ROOT_FOLDER_ID"@, Seq::empty()),
        is_text_under(configured(env).account_115_temp_folder_id, env, "ACCOUNT_115_TEMP_FOLDER_ID"@, Seq::empty()),
        is_text_under(configured(env).tmdb_language, env, "TMDB_LANGUAGE"@, "zh-CN"@),
        is_number_under(
            configured(env).port,
            env,
            "PORT"@,
            u16::MAX as int,
            8080,
        ),
        is_number_under(
            configured(env).account_115_request_interval_ms,
            env,
            "ACCOUNT_115_REQUEST_INTERVAL_MS"@,
            u64::MAX as int,
            1500,
        ),
        is_number_under(
            configured(env).account_115_retry_times,
            env,
            "ACCOUNT_115_RETRY_TIMES"@,
            u32::MAX as int,
            3,
        ),
        is_number_under(
            configured(env).jwt_expiration_hours,
            env,
            "JWT_EXPIRATION_HOURS"@,
            u64::MAX as int,
            24,
        ),
        is_number_under(
            configured(env).transfer_max_size_gb,
            env,
            "TRANSFER_MAX_SIZE_GB"@,
            u64::MAX as int,
            80,
        ),
        is_number_under(
            configured(env).transfer_max_file_count,
            env,
            "TRANSFER_MAX_FILE_COUNT"@,
            u32::MAX as int,
            200,
        ),
        is_number_under(
            configured(env).transfer_min_free_space_gb,
            env,
            "TRANSFER_MIN_FREE_SPACE_GB"@,
            u64::MAX as int,
            20,
        ),
        is_number_under(
            configured(env).share_max_create_per_minute,
            env,
            "SHARE_MAX_CREATE_PER_MINUTE"@,
            u32::MAX as int,
            2,
        ),
        is_number_under(
            configured(env).share_max_create_per_hour,
            env,
            "SHARE_MAX_CREATE_PER_HOUR"@,
            u32::MAX as int,
            20,
        ),
        is_number_under(
            configured(env).share_max_create_per_day,
            env,
            "SHARE_MAX_CREATE_PER_DAY"@,
            u32::MAX as int,
            100,
        ),
        is_number_under(
            configured(env).share_min_interval_secs,
            env,
            "SHARE_MIN_INTERVAL_SECS"@,
            u64::MAX as int,
            30,
        ),
        is_number_under(
            configured(env).share_random_jitter_secs,
            env,
            "SHARE_RANDOM_JITTER_SECS"@,
            u64::MAX as int,
            15,
        ),
        is_number_under(
            configured(env).clean_min_video_size_mb,
            env,
            "CLEAN_MIN_VIDEO_SIZE_MB"@,
            u64::MAX as int,
            100,
        ),
{
    lemma_unsigned(env, "PORT"@);
    lemma_unsigned(env, "ACCOUNT_115_REQUEST_INTERVAL_MS"@);
    lemma_unsigned(env, "ACCOUNT_115_RETRY_TIMES"@);
    lemma_unsigned(env, "JWT_EXPIRATION_HOURS"@);
    lemma_unsigned(env, "TRANSFER_MAX_SIZE_GB"@);
    lemma_unsigned(env, "TRANSFER_MAX_FILE_COUNT"@);
    lemma_unsigned(env, "TRANSFER_MIN_FREE_SPACE_GB"@);
    lemma_unsigned(env, "SHARE_MAX_CREATE_PER_MINUTE"@);
    lemma_unsigned(env, "SHARE_MAX_CREATE_PER_HOUR"@);
    lemma_unsigned(env, "SHARE_MAX_CREATE_PER_DAY"@);
    lemma_unsigned(env, "SHARE_MIN_INTERVAL_SECS"@);
    lemma_unsigned(env, "SHARE_RANDOM_JITTER_SECS"@);
    lemma_unsigned(env, "CLEAN_MIN_VIDEO_SIZE_MB"@);
}

/// What is read as an unsigned number is not negative.
proof fn lemma_unsigned(texts: Map<Seq<char>, Seq<char>>, key: Seq<char>)
    ensures
        unsigned_value(texts[key]) matches Some(n) ==> n >= 0,
{
}

/// Four variables have to be set, and the first one that is not is complained of; with all of them
/// set nothing is.
pub proof fn four_variables_are_required(env: Map<Seq<char>, Seq<char>>)
    ensures
        missing(env) is None <==> env.dom().contains("DATABASE_URL"@) && env.dom().contains(
            "ACCOUNT_115_COOKIE"@,
        ) && env.dom().contains("TMDB_API_KEY"@) && env.dom().contains("JWT_SECRET"@),
        missing(env) matches Some(e) ==> !env.dom().contains(e.variable()),
        missing(env) == Some(ConfigError::MissingDatabaseUrl) <==> !env.dom().contains(
            "DATABASE_URL"@,
        ),
        missing(env) == Some(ConfigError::MissingCookie) ==> env.dom().contains("DATABASE_URL"@),
        missing(env) == Some(ConfigError::MissingTmdbKey) ==> env.dom().contains(
            "ACCOUNT_115_COOKIE"@,
        ),
        missing(env) == Some(ConfigError::MissingJwtSecret) ==> env.dom().contains("TMDB_API_KEY"@),
        ConfigError::MissingDatabaseUrl.variable() == "DATABASE_URL"@,
        ConfigError::MissingCookie.variable() == "ACCOUNT_115_COOKIE"@,
        ConfigError::MissingTmdbKey.variable() == "TMDB_API_KEY"@,
        ConfigError::MissingJwtSecret.variable() == "JWT_SECRET"@,
{
}

/// What is set under a name: a text that is not empty.
pub open spec fn set_texts(settings: Map<Seq<char>, Seq<char>>) -> Map<Seq<char>, Seq<char>> {
    Map::new(
        |key: Seq<char>| settings.dom().contains(key) && settings[key].len() > 0,
        |key: Seq<char>| settings[key],
    )
}

/// Each setting overrides the part of the configuration that is called like it. An empty setting
/// overrides nothing, nor does one that is no number where one is due. What no setting is called
/// like stays as it was configured.
pub proof fn each_setting_has_its_part(config: Config, settings: Map<Seq<char>, Seq<char>>)
    ensures
        ({
            let base = config@;
            let made = overridden(base, settings);
            let set = set_texts(settings);
            &&& is_text_under(made.account_115_cookie, set, "account_115_cookie"@, base.account_115_cookie)
            &&& is_text_under(made.account_115_root_folder_id, set, "account_115_root_folder_id"@, base.account_115_root_folder_id)
            &&& is_text_under(made.account_115_temp_folder_id, set, "account_115_temp_folder_id"@, base.account_115_temp_folder_id)
            &&& is_text_under(made.tmdb_api_key, set, "tmdb_api_key"@, base.tmdb_api_key)
            &&& is_text_under(made.tmdb_language, set, "tmdb_language"@, base.tmdb_language)
            &&& is_number_under(
                made.account_115_request_interval_ms,
                set,
                "account_115_request_interval_ms"@,
                u64::MAX as int,
                base.account_115_request_interval_ms,
            )
            &&& is_number_under(
                made.account_115_retry_times,
                set,
                "account_115_retry_times"@,
                u32::MAX as int,
                base.account_115_retry_times,
            )
            &&& is_number_under(
                made.transfer_max_size_gb,
                set,
                "transfer_max_size_gb"@,
                u64::MAX as int,
                base.transfer_max_size_gb,
            )
            &&& is_number_under(
                made.transfer_max_file_count,
                set,
                "transfer_max_file_count"@,
                u32::MAX as int,
                base.transfer_max_file_count,
            )
            &&& is_number_under(
                made.transfer_min_free_space_gb,
                set,
                "transfer_min_free_space_gb"@,
                u64::MAX as int,
                base.transfer_min_free_space_gb,
            )
            &&& is_number_under(
                made.share_max_create_per_minute,
                set,
                "share_max_create_per_minute"@,
                u32::MAX as int,
                base.share_max_create_per_minute,
            )
            &&& is_number_under(
                made.share_max_create_per_hour,
                set,
                "share_max_create_per_hour"@,
                u32::MAX as int,
                base.share_max_create_per_hour,
            )
            &&& is_number_under(
                made.share_max_create_per_day,
                set,
                "share_max_create_per_day"@,
                u32::MAX as int,
                base.share_max_create_per_day,
            )
            &&& is_number_under(
                made.share_min_interval_secs,
                set,
                "share_min_interval_secs"@,
                u64::MAX as int,
                base.share_min_interval_secs,
            )
            &&& is_number_under(
                made.share_random_jitter_secs,
                set,
                "share_random_jitter_secs"@,
                u64::MAX as int,
                base.share_random_jitter_secs,
            )
            &&& is_number_under(
                made.clean_min_video_size_mb,
                set,
                "clean_min_video_size_mb"@,
                u64::MAX as int,
                base.clean_min_video_size_mb,
            )
            &&& made.host == base.host
            &&& made.port == base.port
            &&& made.app_env == base.app_env
            &&& made.database_url == base.database_url
            &&& made.redis_url == base.redis_url
            &&& made.jwt_secret == base.jwt_secret
            &&& made.jwt_expiration_hours == base.jwt_expiration_hours
        }),
{
    let set = set_texts(settings);
    lemma_unsigned(set, "account_115_request_interval_ms"@);
    lemma_unsigned(set, "account_115_retry_times"@);
    lemma_unsigned(set, "transfer_max_size_gb"@);
    lemma_unsigned(set, "transfer_max_file_count"@);
    lemma_unsigned(set, "transfer_min_free_space_gb"@);
    lemma_unsigned(set, "share_max_create_per_minute"@);
    lemma_unsigned(set, "share_max_create_per_hour"@);
    lemma_unsigned(set, "share_max_create_per_day"@);
    lemma_unsigned(set, "share_min_interval_secs"@);
    lemma_unsigned(set, "share_random_jitter_secs"@);
    lemma_unsigned(set, "clean_min_video_size_mb"@);
}

/// A setting is what was written last under its name; an empty one is none. The others stay.
pub proof fn settings_are_what_was_written(
    settings: Map<Seq<char>, Seq<char>>,
    key: Seq<char>,
    value: Seq<char>,
    other: Seq<char>,
)
    ensures
        setting_of(settings, key) == if settings.dom().contains(key) && settings[key].len() > 0 {
            Some(settings[key])
        } else {
            None
        },
        value.len() == 0 ==> !with_setting(settings, key, value).dom().contains(key),
        value.len() > 0 ==> with_setting(settings, key, value).dom().contains(key) && with_setting(
            settings,
            key,
            value,
        )[key] == value,
        other != key ==> (with_setting(settings, key, value).dom().contains(other)
            <==> settings.dom().contains(other)),
        other != key && settings.dom().contains(other) ==> with_setting(settings, key, value)[other]
            == settings[other],
{
}

/// Settings are loaded one by one, a later one over an earlier one of the same name; empty ones are
/// passed over.
pub proof fn settings_are_loaded_in_order(rows: Seq<(String, String)>, row: (String, String))
    ensures
        loaded(Seq::empty()) == Map::<Seq<char>, Seq<char>>::empty(),
        row.1@.len() == 0 ==> loaded(rows.push(row)) == loaded(rows),
        row.1@.len() > 0 ==> loaded(rows.push(row)) == loaded(rows).insert(row.0@, row.1@),
{
    assert(rows.push(row).drop_last() =~= rows);
    assert(rows.push(row).last() == row);
}

/// Settings are written one by one, in their order.
pub proof fn settings_are_written_in_order(
    settings: Map<Seq<char>, Seq<char>>,
    made: Seq<(String, String)>,
    row: (String, String),
)
    ensures
        with_settings(settings, Seq::empty()) == settings,
        with_settings(settings, made.push(row)) == with_setting(
            with_settings(settings, made),
            row.0@,
            row.1@,
        ),
{
    assert(made.push(row).drop_last() =~= made);
    assert(made.push(row).last() == row);
}

/// The drive is asked with the cookie that is set, or else with the configured one, and with all
/// that is set.
pub proof fn the_drive_is_asked_with_the_settings(state: &AppState, r: Adapter115)
    requires
        call_ensures(AppState::build_adapter, (state,), r),
    ensures
        setting_of(state.settings@, "account_115_cookie"@) matches Some(c) ==> r.cookie@ == c,
        setting_of(state.settings@, "account_115_cookie"@) is None ==> r.cookie@
            == state.config.account_115_cookie@,
        r.config@ == overridden(state.config@, state.settings@),
{
}

/// There is a configuration exactly if nothing that is required is missing.
pub proof fn configurations_are_complete(env: &TextMap, r: Result<Config, ConfigError>)
    requires
        call_ensures(Config::from_env, (env,), r),
    ensures
        r is Ok <==> missing(env@) is None,
        r matches Ok(c) ==> c@ == configured(env@),
        r matches Err(e) ==> missing(env@) == Some(e),
{
}

/// It is production exactly if the environment is called so; what is set is read, and what runs is
/// the configuration with what is set.
pub proof fn settings_are_read(
    state: &AppState,
    key: &str,
    production: bool,
    setting: Option<String>,
    config: Config,
)
    requires
        call_ensures(Config::is_production, (&state.config,), production),
        call_ensures(AppState::get_setting, (state, key), setting),
        call_ensures(AppState::runtime_config, (state,), config),
    ensures
        production <==> state.config.app_env@ == "production"@,
        setting matches Some(v) ==> setting_of(state.settings@, key@) == Some(v@),
        setting is None ==> setting_of(state.settings@, key@) is None,
        config@ == overridden(state.config@, state.settings@),
{
}

} // verus!
