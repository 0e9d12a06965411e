//! Configuration, read from environment variables.

use vstd::prelude::*;

#[allow(unused_imports)]
use crate::text::number::{
    parse_u16, parse_u32, parse_u64, unsigned_value, within,
};
#[allow(unused_imports)]
use crate::text::{cat, same};
use crate::text_map::TextMap;

verus! {

/// The configuration of the application.
#[derive(Debug)]
pub struct Config {
    pub host: String,
    pub port: u16,
    pub app_env: String,
    pub database_url: String,
    pub redis_url: String,
    pub account_115_cookie: String,
    pub account_115_root_folder_id: String,
    pub account_115_temp_folder_id: String,
    pub account_115_request_interval_ms: u64,
    pub account_115_retry_times: u32,
    pub tmdb_api_key: String,
    pub tmdb_language: String,
    pub jwt_secret: String,
    pub jwt_expiration_hours: u64,
    pub transfer_max_size_gb: u64,
    pub transfer_max_file_count: u32,
    pub transfer_min_free_space_gb: u64,
    pub share_max_create_per_minute: u32,
    pub share_max_create_per_hour: u32,
    pub share_max_create_per_day: u32,
    pub share_min_interval_secs: u64,
    pub share_random_jitter_secs: u64,
    pub clean_min_video_size_mb: u64,
}

/// The configuration over sequences of characters and integers.
pub struct ConfigView {
    pub host: Seq<char>,
    pub port: int,
    pub app_env: Seq<char>,
    pub database_url: Seq<char>,
    pub redis_url: Seq<char>,
    pub account_115_cookie: Seq<char>,
    pub account_115_root_folder_id: Seq<char>,
    pub account_115_temp_folder_id: Seq<char>,
    pub account_115_request_interval_ms: int,
    pub account_115_retry_times: int,
    pub tmdb_api_key: Seq<char>,
    pub tmdb_language: Seq<char>,
    pub jwt_secret: Seq<char>,
    pub jwt_expiration_hours: int,
    pub transfer_max_size_gb: int,
    pub transfer_max_file_count: int,
    pub transfer_min_free_space_gb: int,
    pub share_max_create_per_minute: int,
    pub share_max_create_per_hour: int,
    pub share_max_create_per_day: int,
    pub share_min_interval_secs: int,
    pub share_random_jitter_secs: int,
    pub clean_min_video_size_mb: int,
}

impl View for Config {
    type V = ConfigView;

    open spec fn view(&self) -> ConfigView {
        ConfigView {
            host: self.host@,
            port: self.port as int,
            app_env: self.app_env@,
            database_url: self.database_url@,
            redis_url: self.redis_url@,
            account_115_cookie: self.account_115_cookie@,
            account_115_root_folder_id: self.account_115_root_folder_id@,
            account_115_temp_folder_id: self.account_115_temp_folder_id@,
            account_115_request_interval_ms: self.account_115_request_interval_ms as int,
            account_115_retry_times: self.account_115_retry_times as int,
            tmdb_api_key: self.tmdb_api_key@,
            tmdb_language: self.tmdb_language@,
            jwt_secret: self.jwt_secret@,
            jwt_expiration_hours: self.jwt_expiration_hours as int,
            transfer_max_size_gb: self.transfer_max_size_gb as int,
            transfer_max_file_count: self.transfer_max_file_count as int,
            transfer_min_free_space_gb: self.transfer_min_free_space_gb as int,
            share_max_create_per_minute: self.share_max_create_per_minute as int,
            share_max_create_per_hour: self.share_max_create_per_hour as int,
            share_max_create_per_day: self.share_max_create_per_day as int,
            share_min_interval_secs: self.share_min_interval_secs as int,
            share_random_jitter_secs: self.share_random_jitter_secs as int,
            clean_min_video_size_mb: self.clean_min_video_size_mb as int,
        }
    }
}

impl Clone for Config {
    fn clone(&self) -> (r: Self)
        ensures
            r == *self,
    {
        Config {
            host: self.host.clone(),
            port: self.port,
            app_env: self.app_env.clone(),
            database_url: self.database_url.clone(),
            redis_url: self.redis_url.clone(),
            account_115_cookie: self.account_115_cookie.clone(),
            account_115_root_folder_id: self.account_115_root_folder_id.clone(),
            account_115_temp_folder_id: self.account_115_temp_folder_id.clone(),
            account_115_request_interval_ms: self.account_115_request_interval_ms,
            account_115_retry_times: self.account_115_retry_times,
            tmdb_api_key: self.tmdb_api_key.clone(),
            tmdb_language: self.tmdb_language.clone(),
            jwt_secret: self.jwt_secret.clone(),
            jwt_expiration_hours: self.jwt_expiration_hours,
            transfer_max_size_gb: self.transfer_max_size_gb,
            transfer_max_file_count: self.transfer_max_file_count,
            transfer_min_free_space_gb: self.transfer_min_free_space_gb,
            share_max_create_per_minute: self.share_max_create_per_minute,
            share_max_create_per_hour: self.share_max_create_per_hour,
            share_max_create_per_day: self.share_max_create_per_day,
            share_min_interval_secs: self.share_min_interval_secs,
            share_random_jitter_secs: self.share_random_jitter_secs,
            clean_min_video_size_mb: self.clean_min_video_size_mb,
        }
    }
}

/// The value of a variable, or a default where it is not set.
pub open spec fn text_or(
    env: Map<Seq<char>, Seq<char>>,
    key: Seq<char>,
    default: Seq<char>,
) -> Seq<char> {
    if env.dom().contains(key) {
        env[key]
    } else {
        default
    }
}

/// The number that a variable holds, or a default where it is not set or holds no number between 0
/// and `max`.
pub open spec fn number_or(
    env: Map<Seq<char>, Seq<char>>,
    key: Seq<char>,
    max: int,
    default: int,
) -> int {
    if env.dom().contains(key) {
        match within(unsigned_value(env[key]), 0, max) {
            Some(n) => n,
            None => default,
        }
    } else {
        default
    }
}

/// The configuration that environment variables give.
pub open spec fn configured(env: Map<Seq<char>, Seq<char>>) -> ConfigView {
    ConfigView {
        host: text_or(env, "HOST"@, "0.0.0.0"@),
        port: number_or(env, "PORT"@, u16::MAX as int, 8080),
        app_env: text_or(env, "APP_ENV"@, "development"@),
        database_url: env["DATABASE_URL"@],
        redis_url: text_or(env, "REDIS_URL"@, "redis://127.0.0.1:6379"@),
        account_115_cookie: env["ACCOUNT_115_COOKIE"@],
        account_115_root_folder_id: text_or(env, "ACCOUNT_115_ROOT_FOLDER_ID"@, Seq::empty()),
        account_115_temp_folder_id: text_or(env, "ACCOUNT_115_TEMP_FOLDER_ID"@, Seq::empty()),
        account_115_request_interval_ms: number_or(
            env,
            "ACCOUNT_115_REQUEST_INTERVAL_MS"@,
            u64::MAX as int,
            1500,
        ),
        account_115_retry_times: number_or(env, "ACCOUNT_115_RETRY_TIMES"@, u32::MAX as int, 3),
        tmdb_api_key: env["TMDB_API_KEY"@],
        tmdb_language: text_or(env, "TMDB_LANGUAGE"@, "zh-CN"@),
        jwt_secret: env["JWT_SECRET"@],
        jwt_expiration_hours: number_or(env, "JWT_EXPIRATION_HOURS"@, u64::MAX as int, 24),
        transfer_max_size_gb: number_or(env, "TRANSFER_MAX_SIZE_GB"@, u64::MAX as int, 80),
        transfer_max_file_count: number_or(env, "TRANSFER_MAX_FILE_COUNT"@, u32::MAX as int, 200),
        transfer_min_free_space_gb: number_or(
            env,
            "TRANSFER_MIN_FREE_SPACE_GB"@,
            u64::MAX as int,
            20,
        ),
        share_max_create_per_minute: number_or(
            env,
            "SHARE_MAX_CREATE_PER_MINUTE"@,
            u32::MAX as int,
            2,
        ),
        share_max_create_per_hour: number_or(env, "SHARE_MAX_CREATE_PER_HOUR"@, u32::MAX as int, 20),
        share_max_create_per_day: number_or(env, "SHARE_MAX_CREATE_PER_DAY"@, u32::MAX as int, 100),
        share_min_interval_secs: number_or(env, "SHARE_MIN_INTERVAL_SECS"@, u64::MAX as int, 30),
        share_random_jitter_secs: number_or(env, "SHARE_RANDOM_JITTER_SECS"@, u64::MAX as int, 15),
        clean_min_video_size_mb: number_or(env, "CLEAN_MIN_VIDEO_SIZE_MB"@, u64::MAX as int, 100),
    }
}

/// The value of a variable, or a default where it is not set.
fn env_str(env: &TextMap, key: &str, default: &str) -> (r: String)
    ensures
        r@ == text_or(env@, key@, default@),
{
    match env.get(key) {
        Some(v) => v,
        None => default.to_string(),
    }
}

/// The value of a variable, or nothing where it is not set.
fn env_or_empty(env: &TextMap, key: &str) -> (r: String)
    ensures
        r@ == text_or(env@, key@, Seq::empty()),
{
    match env.get(key) {
        Some(v) => v,
        None => String::new(),
    }
}

/// The number that a variable holds, or a default.
fn env_u16(env: &TextMap, key: &str, default: u16) -> (r: u16)
    ensures
        r == number_or(env@, key@, u16::MAX as int, default as int),
{
    match env.get(key) {
        Some(v) => match parse_u16(v.as_str()) {
            Some(n) => n,
            None => default,
        },
        None => default,
    }
}

/// The number that a variable holds, or a default.
fn env_u32(env: &TextMap, key: &str, default: u32) -> (r: u32)
    ensures
        r == number_or(env@, key@, u32::MAX as int, default as int),
{
    match env.get(key) {
        Some(v) => match parse_u32(v.as_str()) {
            Some(n) => n,
            None => default,
        },
        None => default,
    }
}

/// The number that a variable holds, or a default.
fn env_u64(env: &TextMap, key: &str, default: u64) -> (r: u64)
    ensures
        r == number_or(env@, key@, u64::MAX as int, default as int),
{
    match env.get(key) {
        Some(v) => match parse_u64(v.as_str()) {
            Some(n) => n,
            None => default,
        },
        None => default,
    }
}

/// Why there is no configuration: a variable is not set that has to be.
#[derive(Debug, PartialEq, Eq, Structural, Clone, Copy)]
pub enum ConfigError {
    MissingDatabaseUrl,
    MissingCookie,
    MissingTmdbKey,
    MissingJwtSecret,
}

impl ConfigError {
    /// The variable that is not set.
    pub open spec fn variable(self) -> Seq<char> {
        match self {
            ConfigError::MissingDatabaseUrl => "DATABASE_URL"@,
            ConfigError::MissingCookie => "ACCOUNT_115_COOKIE"@,
            ConfigError::MissingTmdbKey => "TMDB_API_KEY"@,
            ConfigError::MissingJwtSecret => "JWT_SECRET"@,
        }
    }

    /// The error in words.
    pub fn message(&self) -> (r: String)
        ensures
            r@ == self.variable() + " 未配置"@,
    {
        let variable = match self {
            ConfigError::MissingDatabaseUrl => "DATABASE_URL",
            ConfigError::MissingCookie => "ACCOUNT_115_COOKIE",
            ConfigError::MissingTmdbKey => "TMDB_API_KEY",
            ConfigError::MissingJwtSecret => "JWT_SECRET",
        };
        cat(variable, " 未配置")
    }
}

/// The first variable that has to be set and is not.
pub open spec fn missing(env: Map<Seq<char>, Seq<char>>) -> Option<ConfigError> {
    if !env.dom().contains("DATABASE_URL"@) {
        Some(ConfigError::MissingDatabaseUrl)
    } else if !env.dom().contains("ACCOUNT_115_COOKIE"@) {
        Some(ConfigError::MissingCookie)
    } else if !env.dom().contains("TMDB_API_KEY"@) {
        Some(ConfigError::MissingTmdbKey)
    } else if !env.dom().contains("JWT_SECRET"@) {
        Some(ConfigError::MissingJwtSecret)
    } else {
        None
    }
}

/// The value of a variable that has to be set.
fn env_require(env: &TextMap, key: &str, error: ConfigError) -> (r: Result<String, ConfigError>)
    ensures
        match r {
            Ok(v) => env@.dom().contains(key@) && v@ == env@[key@],
            Err(e) => !env@.dom().contains(key@) && e == error,
        },
{
    match env.get(key) {
        Some(v) => Ok(v),
        None => Err(error),
    }
}

impl Config {
    /// Reads the configuration from environment variables. `DATABASE_URL`, `ACCOUNT_115_COOKIE`,
    /// `TMDB_API_KEY` and `JWT_SECRET` have to be set.
    pub fn from_env(env: &TextMap) -> (r: Result<Config, ConfigError>)
        ensures
            match r {
                Ok(c) => missing(env@) is None && c@ == configured(env@),
                Err(e) => missing(env@) == Some(e),
            },
    {
        let database_url = match env_require(
            env,
            "DATABASE_URL",
            ConfigError::MissingDatabaseUrl,
        ) {
            Ok(v) => v,
            Err(e) => {
                return Err(e);
            },
        };
        let account_115_cookie = match env_require(
            env,
            "ACCOUNT_115_COOKIE",
            ConfigError::MissingCookie,
        ) {
            Ok(v) => v,
            Err(e) => {
                return Err(e);
            },
        };
        let tmdb_api_key = match env_require(env, "TMDB_API_KEY", ConfigError::MissingTmdbKey) {
            Ok(v) => v,
            Err(e) => {
                return Err(e);
            },
        };
        let jwt_secret = match env_require(env, "JWT_SECRET", ConfigError::MissingJwtSecret) {
            Ok(v) => v,
            Err(e) => {
                return Err(e);
            },
        };
        Ok(
            Config {
                host: env_str(env, "HOST", "0.0.0.0"),
                port: env_u16(env, "PORT", 8080),
                app_env: env_str(env, "APP_ENV", "development"),
                database_url,
                redis_url: env_str(env, "REDIS_URL", "redis://127.0.0.1:6379"),
                account_115_cookie,
                account_115_root_folder_id: env_or_empty(env, "ACCOUNT_115_ROOT_FOLDER_ID"),
                account_115_temp_folder_id: env_or_empty(env, "ACCOUNT_115_TEMP_FOLDER_ID"),
                account_115_request_interval_ms: env_u64(
                    env,
                    "ACCOUNT_115_REQUEST_INTERVAL_MS",
                    1500,
                ),
                account_115_retry_times: env_u32(env, "ACCOUNT_115_RETRY_TIMES", 3),
                tmdb_api_key,
                tmdb_language: env_str(env, "TMDB_LANGUAGE", "zh-CN"),
                jwt_secret,
                jwt_expiration_hours: env_u64(env, "JWT_EXPIRATION_HOURS", 24),
                transfer_max_size_gb: env_u64(env, "TRANSFER_MAX_SIZE_GB", 80),
                transfer_max_file_count: env_u32(env, "TRANSFER_MAX_FILE_COUNT", 200),
                transfer_min_free_space_gb: env_u64(env, "TRANSFER_MIN_FREE_SPACE_GB", 20),
                share_max_create_per_minute: env_u32(env, "SHARE_MAX_CREATE_PER_MINUTE", 2),
                share_max_create_per_hour: env_u32(env, "SHARE_MAX_CREATE_PER_HOUR", 20),
                share_max_create_per_day: env_u32(env, "SHARE_MAX_CREATE_PER_DAY", 100),
                share_min_interval_secs: env_u64(env, "SHARE_MIN_INTERVAL_SECS", 30),
                share_random_jitter_secs: env_u64(env, "SHARE_RANDOM_JITTER_SECS", 15),
                clean_min_video_size_mb: env_u64(env, "CLEAN_MIN_VIDEO_SIZE_MB", 100),
            },
        )
    }

    /// Whether the application runs in production.
    pub fn is_production(&self) -> (r: bool)
        ensures
            r == (self.app_env@ == "production"@),
    {
        same(self.app_env.as_str(), "production")
    }
}

} // verus!
