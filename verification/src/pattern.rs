//! Regular expressions.

use vstd::prelude::*;

verus! {

/// One match of a pattern: where it begins, counted in characters, and the text of each group.
/// Group 0 is the whole match; a group that took no part in the match holds nothing.
pub struct PatternMatch {
    pub start: usize,
    pub groups: Vec<Option<String>>,
}

/// A match as a position and the texts of its groups.
pub type MatchView = (nat, Seq<Option<Seq<char>>>);

/// The texts of groups.
pub open spec fn groups_view(groups: Seq<Option<String>>) -> Seq<Option<Seq<char>>> {
    groups.map_values(|g: Option<String>| crate::text::option_view(g))
}

impl View for PatternMatch {
    type V = MatchView;

    open spec fn view(&self) -> MatchView {
        (self.start as nat, groups_view(self.groups@))
    }
}

/// An optional match as a position and the texts of its groups.
pub open spec fn match_view(m: Option<PatternMatch>) -> Option<MatchView> {
    match m {
        Some(m) => Some(m@),
        None => None,
    }
}

/// The leftmost match of a regular expression in a text.
pub uninterp spec fn leftmost_match(pattern: Seq<char>, text: Seq<char>) -> Option<(
    nat,
    Seq<Option<Seq<char>>>,
)>;

/// Calls `regex::Regex::captures` on the expression that `regex::Regex::new` makes of `pattern`.
/// The result depends on the pattern and the text alone, and a match begins within the text. There
/// is none where nothing matches, nor where `pattern` is no regular expression. Which part of a
/// text an expression matches is not said here.
#[verifier::external_body]
pub(crate) fn captures(pattern: &str, text: &str) -> (r: Option<PatternMatch>)
    ensures
        match_view(r) == leftmost_match(pattern@, text@),
        r matches Some(m) ==> m.start <= text@.len(),
{
    let expression = regex::Regex::new(pattern).ok()?;
    let found = expression.captures(text)?;
    let whole = found.get(0)?;
    let groups = found.iter().map(|g| g.map(|m| m.as_str().to_string())).collect();
    Some(PatternMatch { start: text[..whole.start()].chars().count(), groups })
}

/// The text of group `i` of a match.
pub open spec fn group_of(m: MatchView, i: int) -> Option<Seq<char>> {
    if 0 <= i < m.1.len() {
        m.1[i]
    } else {
        None
    }
}

impl PatternMatch {
    /// The text of group `i`.
    pub fn group(&self, i: usize) -> (r: Option<&String>)
        ensures
            match r {
                Some(t) => group_of(self@, i as int) == Some(t@),
                None => group_of(self@, i as int) is None,
            },
    {
        if i < self.groups.len() {
            self.groups[i].as_ref()
        } else {
            None
        }
    }
}

} // verus!
