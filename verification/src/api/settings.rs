//! Settings.

use vstd::prelude::*;

use crate::state::AppState;
#[allow(unused_imports)]
use crate::state::{setting_of, with_setting};

verus! {

/// A setting, as it is stored and answered.
#[derive(Debug)]
pub struct SettingItem {
    pub key: String,
    pub value: String,
    pub description: Option<String>,
    pub updated_at: i64,
}

/// Settings to be made. No key occurs twice.
#[derive(Debug)]
pub struct UpdateSettingsBody {
    pub settings: Vec<(String, String)>,
}

/// The settings after some are made, one after the other.
pub open spec fn with_settings(
    settings: Map<Seq<char>, Seq<char>>,
    made: Seq<(String, String)>,
) -> Map<Seq<char>, Seq<char>>
    decreases made.len(),
{
    if made.len() == 0 {
        settings
    } else {
        with_setting(
            with_settings(settings, made.drop_last()),
            made.last().0@,
            made.last().1@,
        )
    }
}

/// Makes the first `written` settings: those that were stored. Tells how many were made.
pub fn update_settings(state: &mut AppState, body: &UpdateSettingsBody, written: usize) -> (r: usize)
    requires
        written <= body.settings@.len(),
    ensures
        r == written,
        final(state).settings@ == with_settings(
            old(state).settings@,
            body.settings@.take(written as int),
        ),
        final(state).config == old(state).config,
{
    let mut i: usize = 0;
    while i < written
        invariant
            i <= written <= body.settings@.len(),
            state.settings@ == with_settings(
                old(state).settings@,
                body.settings@.take(i as int),
            ),
            state.config == old(state).config,
        decreases written - i,
    {
        let pair = &body.settings[i];
        assert(body.settings@.take(i + 1).drop_last() =~= body.settings@.take(i as int));
        state.apply_setting(pair.0.as_str(), pair.1.as_str());
        i = i + 1;
    }
    i
}

/// After settings with different keys were made, each of them is read back as it was made, and all
/// others are as they were.
pub proof fn settings_are_read_back(
    settings: Map<Seq<char>, Seq<char>>,
    made: Seq<(String, String)>,
    key: Seq<char>,
)
    requires
        forall|i: int, j: int| 0 <= i < j < made.len() ==> made[i].0@ != made[j].0@,
    ensures
        forall|i: int|
            0 <= i < made.len() && #[trigger] made[i].0@ == key ==> setting_of(
                with_settings(settings, made),
                key,
            ) == if made[i].1@.len() > 0 {
                Some(made[i].1@)
            } else {
                None
            },
        (forall|i: int| 0 <= i < made.len() ==> #[trigger] made[i].0@ != key) ==> setting_of(
            with_settings(settings, made),
            key,
        ) == setting_of(settings, key),
    decreases made.len(),
{
    if made.len() > 0 {
        let rest = made.drop_last();
        assert forall|i: int, j: int| 0 <= i < j < rest.len() implies rest[i].0@ != rest[j].0@ by {
            assert(rest[i] == made[i] && rest[j] == made[j]);
        }
        settings_are_read_back(settings, rest, key);
        let before = with_settings(settings, rest);
        crate::state::setting_is_read_back(before, made.last().0@, made.last().1@, key);
        assert forall|i: int| 0 <= i < made.len() && #[trigger] made[i].0@ == key implies setting_of(
            with_settings(settings, made),
            key,
        ) == if made[i].1@.len() > 0 {
            Some(made[i].1@)
        } else {
            None
        } by {
            if i < rest.len() {
                assert(rest[i] == made[i]);
                assert(made[i].0@ != made[made.len() - 1].0@);
            }
        }
        if forall|i: int| 0 <= i < made.len() ==> #[trigger] made[i].0@ != key {
            assert(made[made.len() - 1].0@ != key);
            assert forall|i: int| 0 <= i < rest.len() implies #[trigger] rest[i].0@ != key by {
                assert(rest[i] == made[i]);
            }
        }
    }
}

} // verus!
