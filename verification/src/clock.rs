//! Moments as text.

use vstd::prelude::*;

#[allow(unused_imports)]
use crate::text::option_view;

verus! {

/// The minute of a moment.
pub const MINUTE_PATTERN: &'static str = "%Y%m%d%H%M";

/// The hour of a moment.
pub const HOUR_PATTERN: &'static str = "%Y%m%d%H";

/// The day of a moment.
pub const DAY_PATTERN: &'static str = "%Y%m%d";

/// The moment `seconds` after the beginning of 1970, in UTC, as `pattern` says; nothing where the
/// calendar does not reach.
pub uninterp spec fn utc_text(seconds: int, pattern: Seq<char>) -> Option<Seq<char>>;

/// Calls `chrono::DateTime::format` on the moment that `chrono::DateTime::from_timestamp` makes of
/// `seconds`. The result depends on the moment and the pattern alone: both are in UTC, and the
/// patterns ask for digits only. Which digits they are is not said here.
#[verifier::external_body]
pub(crate) fn format_utc(seconds: i64, pattern: &str) -> (r: Option<String>)
    requires
        pattern@ == MINUTE_PATTERN@ || pattern@ == HOUR_PATTERN@ || pattern@ == DAY_PATTERN@,
    ensures
        option_view(r) == utc_text(seconds as int, pattern@),
{
    chrono::DateTime::from_timestamp(seconds, 0).map(|moment| moment.format(pattern).to_string())
}

} // verus!
