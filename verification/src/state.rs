//! The state that all requests share: the configuration, and the settings that override it.

use vstd::prelude::*;

use crate::adapters::adapter_115::Adapter115;
use crate::config::Config;
#[allow(unused_imports)]
use crate::config::ConfigView;
#[allow(unused_imports)]
use crate::text::number::{parse_u32, parse_u64, unsigned_value, within};
use crate::text_map::TextMap;

verus! {

/// The configuration at the start, and the settings made since.
pub struct AppState {
    pub config: Config,
    pub settings: TextMap,
}

// ---------------------------------------------------------------------------
// Settings
// ---------------------------------------------------------------------------

/// The value of a setting. One that is empty counts as not set.
pub open spec fn setting_of(settings: Map<Seq<char>, Seq<char>>, key: Seq<char>) -> Option<
    Seq<char>,
> {
    if settings.dom().contains(key) && settings[key].len() > 0 {
        Some(settings[key])
    } else {
        None
    }
}

/// The settings after one is made. An empty value takes the setting away.
pub open spec fn with_setting(
    settings: Map<Seq<char>, Seq<char>>,
    key: Seq<char>,
    value: Seq<char>,
) -> Map<Seq<char>, Seq<char>> {
    if value.len() == 0 {
        settings.remove(key)
    } else {
        settings.insert(key, value)
    }
}

/// The settings that stored rows give. Rows with an empty value are left out; of two rows with the
/// same key the later one holds.
pub open spec fn loaded(rows: Seq<(String, String)>) -> Map<Seq<char>, Seq<char>>
    decreases rows.len(),
{
    if rows.len() == 0 {
        Map::empty()
    } else {
        let before = loaded(rows.drop_last());
        if rows.last().1@.len() == 0 {
            before
        } else {
            before.insert(rows.last().0@, rows.last().1@)
        }
    }
}

/// Reads the settings from stored rows.
pub fn load_settings(rows: Vec<(String, String)>) -> (r: TextMap)
    ensures
        r@ == loaded(rows@),
{
    let mut out = TextMap::new();
    let mut i: usize = 0;
    while i < rows.len()
        invariant
            i <= rows@.len(),
            out@ == loaded(rows@.take(i as int)),
        decreases rows@.len() - i,
    {
        assert(rows@.take(i + 1).drop_last() == rows@.take(i as int));
        if !rows[i].1.as_str().is_empty() {
            out.insert(rows[i].0.clone(), rows[i].1.clone());
        }
        i = i + 1;
    }
    assert(rows@.take(i as int) == rows@);
    out
}

// ---------------------------------------------------------------------------
// The configuration in force
// ---------------------------------------------------------------------------

/// The value of a setting, or else what holds without it.
pub open spec fn text_override(
    settings: Map<Seq<char>, Seq<char>>,
    key: Seq<char>,
    current: Seq<char>,
) -> Seq<char> {
    match setting_of(settings, key) {
        Some(v) => v,
        None => current,
    }
}

/// The number that a setting holds, or else, also where it holds no number between 0 and `max`,
/// what holds without it.
pub open spec fn number_override(
    settings: Map<Seq<char>, Seq<char>>,
    key: Seq<char>,
    max: int,
    current: int,
) -> int {
    match setting_of(settings, key) {
        Some(v) => match within(unsigned_value(v), 0, max) {
            Some(n) => n,
            None => current,
        },
        None => current,
    }
}

/// A configuration under settings.
pub open spec fn overridden(
    base: ConfigView,
    settings: Map<Seq<char>, Seq<char>>,
) -> ConfigView {
    ConfigView {
        account_115_cookie: text_override(settings, "account_115_cookie"@, base.account_115_cookie),
        account_115_root_folder_id: text_override(
            settings,
            "account_115_root_folder_id"@,
            base.account_115_root_folder_id,
        ),
        account_115_temp_folder_id: text_override(
            settings,
            "account_115_temp_folder_id"@,
            base.account_115_temp_folder_id,
        ),
        tmdb_api_key: text_override(settings, "tmdb_api_key"@, base.tmdb_api_key),
        tmdb_language: text_override(settings, "tmdb_language"@, base.tmdb_language),
        account_115_request_interval_ms: number_override(
            settings,
            "account_115_request_interval_ms"@,
            u64::MAX as int,
            base.account_115_request_interval_ms,
        ),
        account_115_retry_times: number_override(
            settings,
            "account_115_retry_times"@,
            u32::MAX as int,
            base.account_115_retry_times,
        ),
        transfer_max_size_gb: number_override(
            settings,
            "transfer_max_size_gb"@,
            u64::MAX as int,
            base.transfer_max_size_gb,
        ),
        transfer_max_file_count: number_override(
            settings,
            "transfer_max_file_count"@,
            u32::MAX as int,
            base.transfer_max_file_count,
        ),
        transfer_min_free_space_gb: number_override(
            settings,
            "transfer_min_free_space_gb"@,
            u64::MAX as int,
            base.transfer_min_free_space_gb,
        ),
        share_max_create_per_minute: number_override(
            settings,
            "share_max_create_per_minute"@,
            u32::MAX as int,
            base.share_max_create_per_minute,
        ),
        share_max_create_per_hour: number_override(
            settings,
            "share_max_create_per_hour"@,
            u32::MAX as int,
            base.share_max_create_per_hour,
        ),
        share_max_create_per_day: number_override(
            settings,
            "share_max_create_per_day"@,
            u32::MAX as int,
            base.share_max_create_per_day,
        ),
        share_min_interval_secs: number_override(
            settings,
            "share_min_interval_secs"@,
            u64::MAX as int,
            base.share_min_interval_secs,
        ),
        share_random_jitter_secs: number_override(
            settings,
            "share_random_jitter_secs"@,
            u64::MAX as int,
            base.share_random_jitter_secs,
        ),
        clean_min_video_size_mb: number_override(
            settings,
            "clean_min_video_size_mb"@,
            u64::MAX as int,
            base.clean_min_video_size_mb,
        ),
        ..base
    }
}

/// Puts the value of a setting in place of `target`.
fn override_string(settings: &TextMap, key: &str, target: &mut String)
    ensures
        final(target)@ == text_override(settings@, key@, old(target)@),
{
    if let Some(value) = settings.get(key) {
        if !value.as_str().is_empty() {
            *target = value;
        }
    }
}

/// Puts the number that a setting holds in place of `target`.
fn override_u32(settings: &TextMap, key: &str, target: &mut u32)
    ensures
        *final(target) == number_override(settings@, key@, u32::MAX as int, *old(target) as int),
{
    if let Some(value) = settings.get(key) {
        if !value.as_str().is_empty() {
            if let Some(n) = parse_u32(value.as_str()) {
                *target = n;
            }
        }
    }
}

/// Puts the number that a setting holds in place of `target`.
fn override_u64(settings: &TextMap, key: &str, target: &mut u64)
    ensures
        *final(target) == number_override(settings@, key@, u64::MAX as int, *old(target) as int),
{
    if let Some(value) = settings.get(key) {
        if !value.as_str().is_empty() {
            if let Some(n) = parse_u64(value.as_str()) {
                *target = n;
            }
        }
    }
}

impl AppState {
    /// The value of a setting, if it is made and not empty.
    pub fn get_setting(&self, key: &str) -> (r: Option<String>)
        ensures
            match r {
                Some(v) => setting_of(self.settings@, key@) == Some(v@),
                None => setting_of(self.settings@, key@) is None,
            },
    {
        match self.settings.get(key) {
            Some(v) => if v.as_str().is_empty() {
                None
            } else {
                Some(v)
            },
            None => None,
        }
    }

    /// Makes a setting. An empty value takes it away.
    pub fn apply_setting(&mut self, key: &str, value: &str)
        ensures
            final(self).settings@ == with_setting(old(self).settings@, key@, value@),
            final(self).config == old(self).config,
    {
        let v = value.to_string();
        if v.as_str().is_empty() {
            self.settings.remove(key);
        } else {
            self.settings.insert(key.to_string(), v);
        }
    }

    /// The configuration in force: what the settings say, and otherwise what held at the start.
    pub fn runtime_config(&self) -> (r: Config)
        ensures
            r@ == overridden(self.config@, self.settings@),
    {
        let mut config = self.config.clone();
        let settings = &self.settings;
        override_string(settings, "account_115_cookie", &mut config.account_115_cookie);
        override_string(
            settings,
            "account_115_root_folder_id",
            &mut config.account_115_root_folder_id,
        );
        override_string(
            settings,
            "account_115_temp_folder_id",
            &mut config.account_115_temp_folder_id,
        );
        override_u64(
            settings,
            "account_115_request_interval_ms",
            &mut config.account_115_request_interval_ms,
        );
        override_u32(settings, "account_115_retry_times", &mut config.account_115_retry_times);
        override_string(settings, "tmdb_api_key", &mut config.tmdb_api_key);
        override_string(settings, "tmdb_language", &mut config.tmdb_language);
        override_u64(settings, "transfer_max_size_gb", &mut config.transfer_max_size_gb);
        override_u32(settings, "transfer_max_file_count", &mut config.transfer_max_file_count);
        override_u64(
            settings,
            "transfer_min_free_space_gb",
            &mut config.transfer_min_free_space_gb,
        );
        override_u32(
            settings,
            "share_max_create_per_minute",
            &mut config.share_max_create_per_minute,
        );
        override_u32(settings, "share_max_create_per_hour", &mut config.share_max_create_per_hour);
        override_u32(settings, "share_max_create_per_day", &mut config.share_max_create_per_day);
        override_u64(settings, "share_min_interval_secs", &mut config.share_min_interval_secs);
        override_u64(settings, "share_random_jitter_secs", &mut config.share_random_jitter_secs);
        override_u64(settings, "clean_min_video_size_mb", &mut config.clean_min_video_size_mb);
        config
    }

    /// The adapter for the account that the configuration in force names.
    pub fn build_adapter(&self) -> (r: Adapter115)
        ensures
            r.config@ == overridden(self.config@, self.settings@),
            r.cookie@ == r.config.account_115_cookie@,
    {
        let config = self.runtime_config();
        let cookie = config.account_115_cookie.clone();
        Adapter115::new(cookie.as_str(), config)
    }
}

// ---------------------------------------------------------------------------
// Laws
// ---------------------------------------------------------------------------

/// A setting that was made is read back; an empty one reads as not set. All others stay as they
/// were.
pub proof fn setting_is_read_back(
    settings: Map<Seq<char>, Seq<char>>,
    key: Seq<char>,
    value: Seq<char>,
    other: Seq<char>,
)
    ensures
        value.len() > 0 ==> setting_of(with_setting(settings, key, value), key) == Some(value),
        value.len() == 0 ==> setting_of(with_setting(settings, key, value), key) is None,
        other != key ==> setting_of(with_setting(settings, key, value), other) == setting_of(
            settings,
            other,
        ),
{
}

/// A setting takes effect at once: a text is in force as it was made, and a number that fits as its
/// value; a setting that is taken away leaves what holds without it; and what other settings say
/// stays.
pub proof fn settings_take_effect(
    settings: Map<Seq<char>, Seq<char>>,
    key: Seq<char>,
    value: Seq<char>,
    other: Seq<char>,
    text: Seq<char>,
    max: int,
    number: int,
)
    ensures
        ({
            let made = with_setting(settings, key, value);
            &&& text_override(made, key, text) == if value.len() > 0 {
                value
            } else {
                text
            }
            &&& number_override(made, key, max, number) == match within(
                unsigned_value(value),
                0,
                max,
            ) {
                Some(n) => n,
                None => number,
            }
            &&& other != key ==> text_override(made, other, text) == text_override(
                settings,
                other,
                text,
            )
            &&& other != key ==> number_override(made, other, max, number) == number_override(
                settings,
                other,
                max,
                number,
            )
        }),
{
}

/// Settings made after a start hold in the same way after the next one, when they are read from
/// where they were stored: loading the rows that were written gives what making them one by one
/// gives.
pub proof fn loading_agrees_with_making(rows: Seq<(String, String)>, key: String, value: String)
    requires
        forall|i: int| 0 <= i < rows.len() ==> #[trigger] rows[i].0@ != key@,
    ensures
        loaded(rows.push((key, value))) == with_setting(loaded(rows), key@, value@),
{
    lemma_loaded_keys(rows, key@);
    assert(rows.push((key, value)).drop_last() == rows);
    if value@.len() == 0 {
        assert(loaded(rows).remove(key@) =~= loaded(rows));
    }
}

/// Only keys of the rows are loaded.
proof fn lemma_loaded_keys(rows: Seq<(String, String)>, key: Seq<char>)
    requires
        forall|i: int| 0 <= i < rows.len() ==> #[trigger] rows[i].0@ != key,
    ensures
        !loaded(rows).dom().contains(key),
    decreases rows.len(),
{
    if rows.len() > 0 {
        assert forall|i: int| 0 <= i < rows.drop_last().len() implies #[trigger] rows.drop_last()[i].0@
            != key by {
            assert(rows.drop_last()[i] == rows[i]);
        }
        lemma_loaded_keys(rows.drop_last(), key);
    }
}

/// Without settings the configuration is what it was at the start, and no setting changes where the
/// server listens or what it connects to.
pub proof fn settings_only_override(base: ConfigView, settings: Map<Seq<char>, Seq<char>>)
    ensures
        (forall|key: Seq<char>| setting_of(settings, key) is None) ==> overridden(base, settings)
            == base,
        overridden(base, settings).host == base.host,
        overridden(base, settings).port == base.port,
        overridden(base, settings).app_env == base.app_env,
        overridden(base, settings).database_url == base.database_url,
        overridden(base, settings).redis_url == base.redis_url,
        overridden(base, settings).jwt_secret == base.jwt_secret,
        overridden(base, settings).jwt_expiration_hours == base.jwt_expiration_hours,
{
}

} // verus!
