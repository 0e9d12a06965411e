//! Laws of titles: how they are read from file names, cleaned, chosen and made legal.

use vstd::prelude::*;

#[allow(unused_imports)]
use crate::laws::texts::{
    blank_texts_vanish, is_blank, is_tight, joining_goes_part_by_part,
    trimming_takes_white_space_only, words_are_parted_by_white_space,
};
#[allow(unused_imports)]
use crate::pattern::{leftmost_match, MatchView};
#[allow(unused_imports)]
use crate::services::title::{
    database_title, has_cjk, is_cjk, is_illegal, legal, local_title, preferred, sanitized,
};
#[allow(unused_imports)]
use crate::services::tmdb::TmdbResult;
#[allow(unused_imports)]
use crate::text::number::signed_value;
#[allow(unused_imports)]
use crate::text::path::{extension_of, stem_of};
#[allow(unused_imports)]
use crate::text::{is_white, is_word, joined, lower_of, trimmed, words};
#[allow(unused_imports)]
use crate::utils::{
    assembled, cleaned, is_noise, normalized, parsed, quiet, ParsedFileNameView, RE_QUALITY,
    RE_SEASON_EPISODE, RE_TECH_CUT, RE_YEAR,
};

verus! {

/// Where the title ends in a normalized file name: in front of the first of the season and episode,
/// the year and the technical tag, whichever of them are there, or at the end of the name.
pub proof fn titles_stand_in_front(
    ext: Seq<char>,
    norm: Seq<char>,
    quality: Option<MatchView>,
    season_episode: Option<MatchView>,
    year: Option<MatchView>,
    tech: Option<MatchView>,
) -> (cut: int)
    ensures
        0 <= cut <= norm.len(),
        assembled(ext, norm, quality, season_episode, year, tech).title == cleaned(norm.take(cut)),
        season_episode matches Some(m) ==> cut <= m.0,
        year matches Some(m) ==> cut <= m.0,
        tech matches Some(m) ==> cut <= m.0,
        cut == norm.len() || (season_episode matches Some(m) && cut == m.0) || (year matches Some(m)
            && cut == m.0) || (tech matches Some(m) && cut == m.0),
{
    let n = norm.len() as int;
    let a = match season_episode {
        Some(m) => if m.0 < n {
            m.0 as int
        } else {
            n
        },
        None => n,
    };
    let b = match year {
        Some(m) => if m.0 < a {
            m.0 as int
        } else {
            a
        },
        None => a,
    };
    match tech {
        Some(m) => if m.0 < b {
            m.0 as int
        } else {
            b
        },
        None => b,
    }
}

/// Nothing behind the first mark has a say in the title, and the order in which the marks come has
/// none either.
pub proof fn titles_do_not_depend_on_the_rest(
    ext: Seq<char>,
    front: Seq<char>,
    rest: Seq<char>,
    quality: Option<MatchView>,
    a: Option<MatchView>,
    b: Option<MatchView>,
    c: Option<MatchView>,
)
    requires
        a matches Some(m) ==> m.0 >= front.len(),
        b matches Some(m) ==> m.0 >= front.len(),
        c matches Some(m) ==> m.0 >= front.len(),
        (a matches Some(m) && m.0 == front.len()) || (b matches Some(m) && m.0 == front.len()) || (c
            matches Some(m) && m.0 == front.len()) || rest.len() == 0,
    ensures
        assembled(ext, front + rest, quality, a, b, c).title == cleaned(front),
        assembled(ext, front + rest, quality, b, c, a).title == cleaned(front),
        assembled(ext, front + rest, quality, c, a, b).title == cleaned(front),
{
    let norm = front + rest;
    let x = titles_stand_in_front(ext, norm, quality, a, b, c);
    let y = titles_stand_in_front(ext, norm, quality, b, c, a);
    let z = titles_stand_in_front(ext, norm, quality, c, a, b);
    assert(x == front.len() && y == front.len() && z == front.len());
    assert(norm.take(front.len() as int) =~= front);
}

/// Whether a text is that of a number which a file name can tell.
pub open spec fn says_number(group: Option<Seq<char>>, n: i32) -> bool {
    group matches Some(t) && signed_value(t) == Some(n as int)
}

/// Each number that a file name tells stands in a group of its own: the year in the first one of
/// the year's match; the season in the first one or, where that took no part, the third one of the
/// match of season and episode; the episode in the second, fourth, fifth or sixth one. The quality
/// is what its match's first group says, and the extension is kept.
pub proof fn numbers_are_told_by_their_groups(
    ext: Seq<char>,
    norm: Seq<char>,
    quality: Option<MatchView>,
    season_episode: Option<MatchView>,
    year: Option<MatchView>,
    tech: Option<MatchView>,
    n: i32,
)
    requires
        season_episode matches Some(m) ==> m.1.len() == 7,
        year matches Some(m) ==> m.1.len() == 2,
        quality matches Some(m) ==> m.1.len() == 2,
    ensures
        ({
            let r = assembled(ext, norm, quality, season_episode, year, tech);
            &&& r.ext == ext
            &&& r.quality == match quality {
                Some(m) => m.1[1],
                None => None,
            }
            &&& r.year == Some(n) <==> (year matches Some(m) && says_number(m.1[1], n))
            &&& season_episode is None ==> r.season is None && r.episode is None
            &&& season_episode matches Some(m) ==> {
                &&& m.1[1] is Some ==> (r.season == Some(n) <==> says_number(m.1[1], n))
                &&& m.1[1] is None ==> (r.season == Some(n) <==> says_number(m.1[3], n))
                &&& m.1[2] is Some ==> (r.episode == Some(n) <==> says_number(m.1[2], n))
                &&& m.1[2] is None && m.1[4] is Some ==> (r.episode == Some(n) <==> says_number(
                    m.1[4],
                    n,
                ))
                &&& m.1[2] is None && m.1[4] is None && m.1[5] is Some ==> (r.episode == Some(n)
                    <==> says_number(m.1[5], n))
                &&& m.1[2] is None && m.1[4] is None && m.1[5] is None ==> (r.episode == Some(n)
                    <==> says_number(m.1[6], n))
            }
        }),
{
}

/// A file name is read from its stem, with a space in the place of each full stop and underscore,
/// and from its extension in lower case; each of the four expressions is asked for what it is
/// there for.
pub proof fn names_are_read_from_stem_and_extension(name: Seq<char>, norm: Seq<char>)
    requires
        norm.len() == stem_of(name).len(),
        forall|i: int|
            0 <= i < norm.len() ==> #[trigger] norm[i] == if stem_of(name)[i] == '.' || stem_of(
                name,
            )[i] == '_' {
                ' '
            } else {
                stem_of(name)[i]
            },
    ensures
        parsed(name) == assembled(
            lower_of(extension_of(name)),
            norm,
            leftmost_match(RE_QUALITY@, norm),
            leftmost_match(RE_SEASON_EPISODE@, norm),
            leftmost_match(RE_YEAR@, norm),
            leftmost_match(RE_TECH_CUT@, norm),
        ),
{
    assert(normalized(stem_of(name)) =~= norm);
}

/// A full stop, an underscore and a space mean the same in a file name's stem.
pub proof fn separators_are_alike(a: Seq<char>, b: Seq<char>)
    requires
        extension_of(a) == extension_of(b),
        stem_of(a).len() == stem_of(b).len(),
        forall|i: int|
            #![trigger stem_of(a)[i]]
            #![trigger stem_of(b)[i]]
            0 <= i < stem_of(a).len() ==> stem_of(a)[i] == stem_of(b)[i] || seq![
                '.',
                '_',
                ' ',
            ].contains(stem_of(a)[i]) && seq!['.', '_', ' '].contains(stem_of(b)[i]),
    ensures
        parsed(a) == parsed(b),
{
    let s = stem_of(a);
    let t = stem_of(b);
    assert forall|i: int| 0 <= i < s.len() implies #[trigger] normalized(s)[i] == normalized(t)[i] by {
        assert(s[i] == t[i] || seq!['.', '_', ' '].contains(s[i]) && seq!['.', '_', ' '].contains(
            t[i],
        ));
    }
    assert(normalized(s) =~= normalized(t));
}

/// What stands between the words of a title is dropped: white space, full stops, underscores,
/// hyphens and brackets, these and nothing else.
pub open spec fn is_between(c: char) -> bool {
    is_white(c) || seq!['.', '_', '-', '[', ']', '(', ')', '【', '】', '《', '》'].contains(c)
}

/// A cleaned title is made of the words of the raw one, in their order and unchanged, with one
/// space between two of them.
pub proof fn titles_are_their_words(a: Seq<char>, c: char, b: Seq<char>)
    ensures
        cleaned(Seq::empty()).len() == 0,
        (forall|i: int| 0 <= i < a.len() ==> !is_between(#[trigger] a[i])) ==> cleaned(a) == a,
        is_between(c) ==> cleaned(a + seq![c] + b) == if cleaned(a).len() == 0 {
            cleaned(b)
        } else if cleaned(b).len() == 0 {
            cleaned(a)
        } else {
            cleaned(a) + seq![' '] + cleaned(b)
        },
{
    let f = |x: char| quiet(x);
    let qa = a.map_values(f);
    let qb = b.map_values(f);
    let sp = seq![' '];
    words_are_parted_by_white_space(Seq::empty(), ' ', Seq::empty());
    assert(Seq::<char>::empty().map_values(f) =~= Seq::<char>::empty());
    lemma_between(c);
    if forall|i: int| 0 <= i < a.len() ==> !is_between(#[trigger] a[i]) {
        assert forall|i: int| 0 <= i < a.len() implies qa[i] == a[i] && !is_white(a[i]) by {
            assert(!is_between(a[i]));
            lemma_between(a[i]);
        }
        assert(qa =~= a);
        if a.len() > 0 {
            assert(is_word(a)) by {
                assert forall|i: int| 0 <= i < a.len() implies !is_white(#[trigger] a[i]) by {
                    assert(qa[i] == a[i]);
                }
            }
            words_are_parted_by_white_space(a, ' ', Seq::empty());
            assert(joined(seq![a], sp) == a);
        } else {
            assert(a =~= Seq::empty());
        }
    }
    if is_between(c) {
        let whole = (a + seq![c] + b).map_values(f);
        assert(whole =~= qa + seq![quiet(c)] + qb);
        words_are_parted_by_white_space(qa, quiet(c), qb);
        lemma_nothing_joined(qa);
        lemma_nothing_joined(qb);
        if words(qa).len() == 0 {
            assert(words(qa) + words(qb) =~= words(qb));
        } else if words(qb).len() == 0 {
            assert(words(qa) + words(qb) =~= words(qa));
        } else {
            joining_goes_part_by_part(words(qa), words(qb), sp);
        }
    }
}

/// What is dropped from titles is what becomes white space in them.
proof fn lemma_between(c: char)
    ensures
        is_between(c) <==> is_white(quiet(c)),
        !is_between(c) ==> quiet(c) == c,
{
    let list = seq!['.', '_', '-', '[', ']', '(', ')', '【', '】', '《', '》'];
    assert(list.len() == 11);
    assert(list[0] == '.' && list[1] == '_' && list[2] == '-' && list[3] == '[' && list[4] == ']');
    assert(list[5] == '(' && list[6] == ')' && list[7] == '【' && list[8] == '】');
    assert(list[9] == '《' && list[10] == '》');
    if is_noise(c) {
        assert(list.contains(c));
    }
}

/// Words that are joined make a text unless there are none.
proof fn lemma_nothing_joined(s: Seq<char>)
    ensures
        joined(words(s), seq![' ']).len() == 0 <==> words(s).len() == 0,
{
    crate::text::lemma_words(s, 0, 0);
    let w = words(s);
    if w.len() > 0 {
        assert(is_word(w.last()));
    }
}

/// The Chinese characters are those of three blocks.
pub proof fn chinese_characters_stand_in_three_blocks(s: Seq<char>)
    ensures
        has_cjk(s) <==> exists|i: int|
            #![trigger s[i]]
            0 <= i < s.len() && (0x4e00 <= s[i] as int <= 0x9fff || 0x3400 <= s[i] as int <= 0x4dbf
                || 0xf900 <= s[i] as int <= 0xfaff),
{
    if has_cjk(s) {
        let i = choose|i: int| 0 <= i < s.len() && is_cjk(#[trigger] s[i]);
        assert(0 <= i < s.len() && is_cjk(s[i]));
    }
    if exists|i: int|
        #![trigger s[i]]
        0 <= i < s.len() && (0x4e00 <= s[i] as int <= 0x9fff || 0x3400 <= s[i] as int <= 0x4dbf
            || 0xf900 <= s[i] as int <= 0xfaff) {
        let i = choose|i: int|
            #![trigger s[i]]
            0 <= i < s.len() && (0x4e00 <= s[i] as int <= 0x9fff || 0x3400 <= s[i] as int <= 0x4dbf
                || 0xf900 <= s[i] as int <= 0xfaff);
        assert(is_cjk(s[i]));
    }
}

/// Whether there is a title at all: one that is not white space alone.
pub open spec fn is_titled(title: Option<Seq<char>>) -> bool {
    title matches Some(t) && !is_blank(t)
}

/// Which of two titles is used, without the white space around it: a Chinese one rather than
/// another; else that of the database; else the local one; else none.
pub proof fn the_best_title_is_used(tmdb: Option<Seq<char>>, local: Option<Seq<char>>)
    ensures
        preferred(tmdb, local) is Some <==> is_titled(tmdb) || is_titled(local),
        is_titled(tmdb) && !is_titled(local) ==> preferred(tmdb, local) == Some(trimmed(tmdb->0)),
        !is_titled(tmdb) && is_titled(local) ==> preferred(tmdb, local) == Some(trimmed(local->0)),
        is_titled(tmdb) && is_titled(local) && has_cjk(trimmed(local->0)) && !has_cjk(
            trimmed(tmdb->0),
        ) ==> preferred(tmdb, local) == Some(trimmed(local->0)),
        is_titled(tmdb) && is_titled(local) && has_cjk(trimmed(tmdb->0)) ==> preferred(tmdb, local)
            == Some(trimmed(tmdb->0)),
        is_titled(tmdb) && is_titled(local) && !has_cjk(trimmed(local->0)) ==> preferred(tmdb, local)
            == Some(trimmed(tmdb->0)),
{
    if let Some(t) = tmdb {
        blank_texts_vanish(t);
    }
    if let Some(t) = local {
        blank_texts_vanish(t);
    }
}

/// The title of a database entry is that of the film or that of the series; a file name's is the
/// one that was read from it.
pub proof fn titles_are_taken_as_they_are(tmdb: TmdbResult, name: ParsedFileNameView)
    ensures
        tmdb matches TmdbResult::Movie(m) ==> database_title(Some(tmdb)) == Some(m.title@),
        tmdb matches TmdbResult::Tv(t) ==> database_title(Some(tmdb)) == Some(t.name@),
        database_title(None) is None,
        local_title(Some(name)) == Some(name.title),
        local_title(None) is None,
{
}

/// The characters that no file name may hold.
pub open spec fn is_forbidden(c: char) -> bool {
    seq!['/', '\\', ':', '*', '?', '"', '<', '>', '|'].contains(c)
}

/// A name is made legal by an underscore in the place of each character that no file name may hold,
/// and by leaving out the white space around it; nothing else is changed.
pub proof fn names_are_made_legal(a: Seq<char>, name: Seq<char>, b: Seq<char>)
    requires
        is_blank(a),
        is_blank(b),
        is_tight(name),
    ensures
        sanitized(a + name + b).len() == name.len(),
        forall|i: int|
            0 <= i < name.len() ==> #[trigger] sanitized(a + name + b)[i] == if is_forbidden(
                name[i],
            ) {
                '_'
            } else {
                name[i]
            },
{
    let f = |c: char| legal(c);
    let fa = a.map_values(f);
    let fb = b.map_values(f);
    let fname = name.map_values(f);
    assert forall|c: char| #[trigger] is_forbidden(c) <==> is_illegal(c) by {
        lemma_forbidden(c);
    }
    assert forall|i: int| 0 <= i < fa.len() implies is_white(#[trigger] fa[i]) by {
        assert(is_white(a[i]));
    }
    assert forall|i: int| 0 <= i < fb.len() implies is_white(#[trigger] fb[i]) by {
        assert(is_white(b[i]));
    }
    assert((a + name + b).map_values(f) =~= fa + fname + fb);
    trimming_takes_white_space_only(fa, fname, fb);
    assert forall|i: int| 0 <= i < name.len() implies #[trigger] sanitized(a + name + b)[i]
        == if is_forbidden(name[i]) {
        '_'
    } else {
        name[i]
    } by {
        assert(fname[i] == legal(name[i]));
    }
}

/// The two ways to tell the characters that no file name may hold.
pub proof fn lemma_forbidden(c: char)
    ensures
        is_forbidden(c) <==> is_illegal(c),
{
    let list = seq!['/', '\\', ':', '*', '?', '"', '<', '>', '|'];
    assert(list.len() == 9);
    assert(list[0] == '/' && list[1] == '\\' && list[2] == ':' && list[3] == '*' && list[4] == '?');
    assert(list[5] == '"' && list[6] == '<' && list[7] == '>' && list[8] == '|');
    if is_illegal(c) {
        assert(list.contains(c));
    }
}

/// The expressions by which file names are read: seasons and episodes, in their four ways to be
/// written; years from 1900 to 2099 between separators; the tags of quality; and the tags that end a
/// title.
pub proof fn names_are_read_by_four_expressions()
    ensures
        RE_SEASON_EPISODE@ == r"(?ix)
        (?:
            [Ss](?P<s1>\d{1,3})[Ee](?P<e1>\d{1,3})
        |
            第\s*(?P<s2>\d{1,3})\s*季.*?第\s*(?P<e2>\d{1,3})\s*[集话]
        |
            [Ee][Pp]?(?P<e3>\d{1,3})
        |
            第\s*(?P<e4>\d{1,3})\s*[集话]
        )"@,
        RE_YEAR@ == r"(?:^|[\s.(【\[])(?P<y>(?:19|20)\d{2})(?:$|[\s.)】\]])"@,
        RE_QUALITY@ == r"(?i)(?P<q>4[Kk]|2160[pP]|1080[pPiI]|720[pPiI]|480[pP]|HDR(?:10)?|SDR|HEVC|AVC|x265|x264|H\.?265|H\.?264|BluRay|WEB-?DL|HDTV|DVDRip)"@,
        RE_TECH_CUT@ == r"(?ix)
        (?:^|[\s.\-_\[\(])
        (?:
            (?:
                4[Kk]|2160[pP]|1080[pPiI]|720[pPiI]|480[pP]|UHD|FULL[\s._-]?HD
                |WEB[\s._-]?DL|WEBRip|BluRay|Blu[\s._-]?Ray|BDRip|BRRip|BDRemux|REMUX|HDTV|PDTV|HDCam|DVDRip|DVDScr|HDRip
                |[xX]265|[xX]264|H[\s._]?265|H[\s._]?264|HEVC|AVC|AV1|VP9
                |DTS[\s._-]?(?:HD|MA|X|ES)?|TrueHD|EAC3|AC3|AAC|FLAC|LPCM|PCM|MP3
                |DDP?[\s._]?\d[\s._]\d|DD\+[\s._]?\d
                |HDR10\+?|HLG|Dolby[\s._]?Vision
                |NF|AMZN|DSNP|HMAX|ATVP|PCOK|iT\b|STAN|FUNI|CRKL|PMTP|MA
                |IMAX|HQ|HQ[\s._-]?HDR|PROPER|REPACK|RETAIL|REMASTERED
            )
            (?:[\s.\-_\]\)]|$)
        |
            DV(?:[\s.\-_\)]|$)
        )"@,
{
}

} // verus!
