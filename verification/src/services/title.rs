//! Titles: which one is used, and how it is written as a file name.

use vstd::prelude::*;

use crate::services::tmdb::TmdbResult;
#[allow(unused_imports)]
use crate::text::{
    from_chars, is_white, option_view, or_empty, str_view, to_chars, trim, trim_end, trim_start, trimmed,
};
use crate::utils::ParsedFileName;
#[allow(unused_imports)]
use crate::utils::{said, ParsedFileNameView};

verus! {

/// Whether `c` is a Chinese character.
pub open spec fn is_cjk(c: char) -> bool {
    ||| '\u{4e00}' <= c <= '\u{9fff}'
    ||| '\u{3400}' <= c <= '\u{4dbf}'
    ||| '\u{f900}' <= c <= '\u{faff}'
}

/// Whether a text holds a Chinese character.
pub open spec fn has_cjk(s: Seq<char>) -> bool {
    exists|i: int| 0 <= i < s.len() && is_cjk(#[trigger] s[i])
}

/// Whether a text holds a Chinese character.
pub fn contains_cjk(s: &str) -> (r: bool)
    ensures
        r == has_cjk(s@),
{
    let v = to_chars(s);
    let mut i: usize = 0;
    while i < v.len()
        invariant
            i <= v@.len(),
            v@ == s@,
            forall|j: int| 0 <= j < i ==> !is_cjk(#[trigger] v@[j]),
        decreases v@.len() - i,
    {
        let c = v[i];
        if ('\u{4e00}' <= c && c <= '\u{9fff}') || ('\u{3400}' <= c && c <= '\u{4dbf}') || (
        '\u{f900}' <= c && c <= '\u{faff}') {
            assert(is_cjk(s@[i as int]));
            return true;
        }
        i = i + 1;
    }
    false
}

/// A title without white space around it, unless nothing is left.
pub open spec fn usable(title: Option<Seq<char>>) -> Option<Seq<char>> {
    match title {
        Some(t) => if trimmed(t).len() > 0 {
            Some(trimmed(t))
        } else {
            None
        },
        None => None,
    }
}

/// The title that is used: that of the database, but the local one where it is Chinese and that of
/// the database is not, or where the database has none.
pub open spec fn preferred(tmdb: Option<Seq<char>>, local: Option<Seq<char>>) -> Option<Seq<char>> {
    match (usable(tmdb), usable(local)) {
        (Some(t), Some(l)) => if has_cjk(l) && !has_cjk(t) {
            Some(l)
        } else {
            Some(t)
        },
        (Some(t), None) => Some(t),
        (None, Some(l)) => Some(l),
        (None, None) => None,
    }
}

/// The entry of the database, if there is one.
pub open spec fn known_entry(tmdb: Option<&TmdbResult>) -> Option<TmdbResult> {
    match tmdb {
        Some(t) => Some(*t),
        None => None,
    }
}

/// The title that the database has.
pub open spec fn database_title(tmdb: Option<TmdbResult>) -> Option<Seq<char>> {
    match tmdb {
        Some(t) => Some(t.title_text()),
        None => None,
    }
}

/// The title that the name of a file says.
pub open spec fn local_title(inferred: Option<ParsedFileNameView>) -> Option<Seq<char>> {
    match inferred {
        Some(p) => Some(p.title),
        None => None,
    }
}

/// A title without white space around it, unless nothing is left.
fn usable_title(title: Option<&str>) -> (r: Option<String>)
    ensures
        option_view(r) == usable(str_view(title)),
{
    match title {
        Some(t) => {
            let t = trim(t);
            if t.as_str().is_empty() {
                None
            } else {
                Some(t)
            }
        },
        None => None,
    }
}

/// The title that is used, if there is one.
pub fn preferred_resource_title(
    tmdb: Option<&TmdbResult>,
    inferred: Option<&ParsedFileName>,
) -> (r: Option<String>)
    ensures
        option_view(r) == preferred(database_title(known_entry(tmdb)), local_title(said(inferred))),
{
    let local: Option<&str> = match inferred {
        Some(p) => Some(p.title.as_str()),
        None => None,
    };
    choose_title(tmdb, local)
}

/// The title that is used, if there is one.
fn choose_title(tmdb: Option<&TmdbResult>, local: Option<&str>) -> (r: Option<String>)
    ensures
        option_view(r) == preferred(database_title(known_entry(tmdb)), str_view(local)),
{
    let theirs = match tmdb {
        Some(t) => usable_title(Some(t.title())),
        None => None,
    };
    let ours = usable_title(local);
    match (theirs, ours) {
        (Some(t), Some(l)) => if contains_cjk(l.as_str()) && !contains_cjk(t.as_str()) {
            Some(l)
        } else {
            Some(t)
        },
        (Some(t), None) => Some(t),
        (None, Some(l)) => Some(l),
        (None, None) => None,
    }
}

/// The title that is used, empty if there is none.
pub fn preferred_title(tmdb: Option<&TmdbResult>, local: Option<&str>) -> (r: String)
    ensures
        r@ == or_empty(preferred(database_title(known_entry(tmdb)), str_view(local))),
{
    match choose_title(tmdb, local) {
        Some(t) => t,
        None => String::new(),
    }
}

// ---------------------------------------------------------------------------
// File names
// ---------------------------------------------------------------------------

/// Whether a file name may not hold `c`.
pub open spec fn is_illegal(c: char) -> bool {
    c == '/' || c == '\\' || c == ':' || c == '*' || c == '?' || c == '"' || c == '<' || c == '>'
        || c == '|'
}

/// An underscore in place of a character that a file name may not hold.
pub open spec fn legal(c: char) -> char {
    if is_illegal(c) {
        '_'
    } else {
        c
    }
}

/// A text as a file name: with underscores for what it may not hold, and no white space around it.
pub open spec fn sanitized(name: Seq<char>) -> Seq<char> {
    trimmed(name.map_values(|c: char| legal(c)))
}

/// A text as a file name.
pub fn sanitize_name(name: &str) -> (r: String)
    ensures
        r@ == sanitized(name@),
{
    let v = to_chars(name);
    let mut out: Vec<char> = Vec::new();
    let mut i: usize = 0;
    while i < v.len()
        invariant
            i <= v@.len(),
            v@ == name@,
            out@ == name@.take(i as int).map_values(|c: char| legal(c)),
        decreases v@.len() - i,
    {
        let c = v[i];
        let bad = c == '/' || c == '\\' || c == ':' || c == '*' || c == '?' || c == '"' || c == '<'
            || c == '>' || c == '|';
        out.push(
            if bad {
                '_'
            } else {
                c
            },
        );
        assert(name@.take(i + 1) == name@.take(i as int).push(c));
        i = i + 1;
    }
    assert(name@.take(i as int) == name@);
    trim(from_chars(&out).as_str())
}

// ---------------------------------------------------------------------------
// Laws
// ---------------------------------------------------------------------------

/// Trimming keeps a part of a text that neither begins nor ends with white space.
pub proof fn lemma_trimmed(s: Seq<char>) -> (r: (int, int))
    ensures
        0 <= r.0 <= r.1 <= s.len(),
        trimmed(s) == s.subrange(r.0, r.1),
        trimmed(s).len() > 0 ==> !is_white(trimmed(s)[0]) && !is_white(trimmed(s).last()),
{
    let from = lemma_trim_start(s);
    let to = lemma_trim_end(trim_start(s));
    let t = trim_start(s);
    assert(t.take(to) =~= s.subrange(from, from + to));
    if to > 0 {
        assert(trimmed(s)[0] == t[0]);
    }
    (from, from + to)
}

/// Trimming at the start keeps what stands behind.
proof fn lemma_trim_start(s: Seq<char>) -> (from: int)
    ensures
        0 <= from <= s.len(),
        trim_start(s) == s.skip(from),
        trim_start(s).len() > 0 ==> !is_white(trim_start(s)[0]),
    decreases s.len(),
{
    if s.len() > 0 && is_white(s[0]) {
        let from = lemma_trim_start(s.drop_first());
        assert(s.drop_first().skip(from) =~= s.skip(from + 1));
        from + 1
    } else {
        assert(s.skip(0) =~= s);
        0
    }
}

/// Trimming at the end keeps what stands in front.
proof fn lemma_trim_end(s: Seq<char>) -> (to: int)
    ensures
        0 <= to <= s.len(),
        trim_end(s) == s.take(to),
        trim_end(s).len() > 0 ==> !is_white(trim_end(s).last()),
    decreases s.len(),
{
    if s.len() > 0 && is_white(s.last()) {
        let to = lemma_trim_end(s.drop_last());
        assert(s.drop_last().take(to) =~= s.take(to));
        to
    } else {
        assert(s.take(s.len() as int) =~= s);
        s.len() as int
    }
}

/// A file name holds nothing that it may not hold, has no white space around it, and is left as it
/// is when it is made into a file name once more.
pub proof fn file_names_are_legal(name: Seq<char>)
    ensures
        forall|i: int| 0 <= i < sanitized(name).len() ==> !is_illegal(#[trigger] sanitized(name)[i]),
        trimmed(sanitized(name)) == sanitized(name),
        sanitized(sanitized(name)) == sanitized(name),
{
    let mapped = name.map_values(|c: char| legal(c));
    let (from, to) = lemma_trimmed(mapped);
    let t = sanitized(name);
    assert forall|i: int| 0 <= i < t.len() implies !is_illegal(#[trigger] t[i]) by {
        assert(t[i] == mapped[from + i]);
        assert(mapped[from + i] == legal(name[from + i]));
    }
    assert(t.map_values(|c: char| legal(c)) =~= t);
    assert(trim_start(t) == t);
    assert(trim_end(t) == t);
}

/// A title that is used is never empty and has no white space around it, and there is one wherever
/// the database or the name of the file has one.
pub proof fn used_titles_are_usable(tmdb: Option<Seq<char>>, local: Option<Seq<char>>)
    ensures
        match preferred(tmdb, local) {
            Some(t) => t.len() > 0 && trimmed(t) == t,
            None => usable(tmdb) is None && usable(local) is None,
        },
{
    if tmdb is Some {
        lemma_trimmed(tmdb->0);
        let t = trimmed(tmdb->0);
        assert(trim_start(t) == t);
        assert(trim_end(t) == t);
    }
    if local is Some {
        lemma_trimmed(local->0);
        let t = trimmed(local->0);
        assert(trim_start(t) == t);
        assert(trim_end(t) == t);
    }
}

/// A Chinese title is used wherever the database or the name of the file has one.
pub proof fn chinese_titles_are_preferred(tmdb: Option<Seq<char>>, local: Option<Seq<char>>)
    requires
        usable(tmdb) is Some && has_cjk(usable(tmdb)->0) || usable(local) is Some && has_cjk(
            usable(local)->0,
        ),
    ensures
        preferred(tmdb, local) is Some,
        has_cjk(preferred(tmdb, local)->0),
{
}

} // verus!
