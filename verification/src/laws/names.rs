//! Laws of file names: the extensions and keywords by which files are told apart.

use vstd::prelude::*;

#[allow(unused_imports)]
use crate::services::organizer::is_junk_extension;
#[allow(unused_imports)]
use crate::text::path::{
    dot_before, extension_of, file_name, last_component, lemma_dot_before, stem_of,
};
#[allow(unused_imports)]
use crate::text::{
    ascii_lower, free_of, has_text, is_plain, is_plain_text, lemma_next_sep, lemma_next_sep_is,
    lower_of, next_sep, pieces, pieces_from,
};
#[allow(unused_imports)]
use crate::utils::{
    has_ad_keyword, is_ad, is_subtitle, is_subtitle_extension, is_video, is_video_extension,
};

verus! {

/// The extensions of videos.
pub open spec fn video_extensions() -> Seq<Seq<char>> {
    seq![
        "mkv"@, "mp4"@, "avi"@, "mov"@, "wmv"@, "flv"@, "m2ts"@, "ts"@, "rmvb"@, "rm"@, "iso"@,
        "bdmv"@,
    ]
}

/// The extensions of subtitles.
pub open spec fn subtitle_extensions() -> Seq<Seq<char>> {
    seq!["srt"@, "ass"@, "ssa"@, "sub"@, "idx"@, "sup"@, "vtt"@]
}

/// The extensions of what is junk beside videos.
pub open spec fn junk_extensions() -> Seq<Seq<char>> {
    seq!["url"@, "lnk"@, "nfo"@]
}

/// The keywords of advertising.
pub open spec fn ad_keywords() -> Seq<Seq<char>> {
    seq![
        "www."@, ".com"@, ".net"@, ".cn"@, "广告"@, "招募"@, "合集"@, "整合"@, "搬运"@,
        "字幕组"@, "公众号"@,
    ]
}

/// Twelve extensions are those of videos, each of them and no other text.
pub proof fn videos_have_twelve_extensions(ext: Seq<char>)
    ensures
        is_video_extension(ext) <==> seq![
            "mkv"@, "mp4"@, "avi"@, "mov"@, "wmv"@, "flv"@, "m2ts"@, "ts"@, "rmvb"@, "rm"@, "iso"@,
            "bdmv"@,
        ].contains(ext),
        is_video_extension(ext) <==> video_extensions().contains(ext),
{
    let l = video_extensions();
    assert(l.len() == 12);
    assert(l[0] == "mkv"@ && l[1] == "mp4"@ && l[2] == "avi"@ && l[3] == "mov"@ && l[4] == "wmv"@);
    assert(l[5] == "flv"@ && l[6] == "m2ts"@ && l[7] == "ts"@ && l[8] == "rmvb"@ && l[9] == "rm"@);
    assert(l[10] == "iso"@ && l[11] == "bdmv"@);
}

/// Seven extensions are those of subtitles, each of them and no other text.
pub proof fn subtitles_have_seven_extensions(ext: Seq<char>)
    ensures
        is_subtitle_extension(ext) <==> subtitle_extensions().contains(ext),
{
    let l = subtitle_extensions();
    assert(l.len() == 7);
    assert(l[0] == "srt"@ && l[1] == "ass"@ && l[2] == "ssa"@ && l[3] == "sub"@ && l[4] == "idx"@);
    assert(l[5] == "sup"@ && l[6] == "vtt"@);
}

/// Three extensions are those of junk, each of them and no other text.
pub proof fn junk_has_three_extensions(ext: Seq<char>)
    ensures
        is_junk_extension(ext) <==> junk_extensions().contains(ext),
{
    let l = junk_extensions();
    assert(l.len() == 3);
    assert(l[0] == "url"@ && l[1] == "lnk"@ && l[2] == "nfo"@);
}

/// A text is advertising exactly if one of eleven keywords occurs in it.
pub proof fn ads_hold_one_of_eleven_keywords(lower: Seq<char>)
    ensures
        has_ad_keyword(lower) <==> exists|k: int|
            0 <= k < ad_keywords().len() && has_text(lower, #[trigger] ad_keywords()[k]),
{
    let l = ad_keywords();
    assert(l.len() == 11);
    assert(l[0] == "www."@ && l[1] == ".com"@ && l[2] == ".net"@ && l[3] == ".cn"@ && l[4]
        == "广告"@);
    assert(l[5] == "招募"@ && l[6] == "合集"@ && l[7] == "整合"@ && l[8] == "搬运"@);
    assert(l[9] == "字幕组"@ && l[10] == "公众号"@);
}

/// What a file is, its name's extension tells, in whichever case it is written; whether it is
/// advertising, its whole name tells, in whichever case too.
pub proof fn files_are_told_by_their_names(name: Seq<char>)
    ensures
        is_video(name) <==> video_extensions().contains(lower_of(extension_of(name))),
        is_subtitle(name) <==> subtitle_extensions().contains(lower_of(extension_of(name))),
        is_ad(name) <==> exists|k: int|
            0 <= k < ad_keywords().len() && has_text(lower_of(name), #[trigger] ad_keywords()[k]),
{
    videos_have_twelve_extensions(lower_of(extension_of(name)));
    subtitles_have_seven_extensions(lower_of(extension_of(name)));
    ads_hold_one_of_eleven_keywords(lower_of(name));
}

/// A text of ASCII and the common Chinese characters has in lower case, in the place of each letter
/// from A to Z, that from a to z which stands 32 places behind it; nothing else is changed.
pub proof fn lower_case_changes_capitals_only(s: Seq<char>, i: int)
    requires
        forall|k: int|
            0 <= k < s.len() ==> (#[trigger] s[k] as int) < 128 || 0x4e00 <= s[k] as int <= 0x9fff,
        0 <= i < s.len(),
    ensures
        lower_of(s).len() == s.len(),
        65 <= s[i] as int <= 90 ==> lower_of(s)[i] as int == s[i] as int + 32,
        !(65 <= s[i] as int <= 90) ==> lower_of(s)[i] == s[i],
{
    assert(is_plain_text(s)) by {
        assert forall|k: int| 0 <= k < s.len() implies is_plain(#[trigger] s[k]) by {}
    }
    assert(lower_of(s)[i] == ascii_lower(s[i]));
}

/// A file name's extension is what stands behind its last full stop, and its stem what stands in
/// front of it; a name without one, or with none but the first character, has no extension.
pub proof fn names_are_parted_at_the_last_stop(stem: Seq<char>, ext: Seq<char>)
    requires
        stem.len() > 0,
        free_of(stem, '/'),
        free_of(ext, '/'),
        free_of(ext, '.'),
        ext.len() > 0,
    ensures
        extension_of(stem + seq!['.'] + ext) == ext,
        stem_of(stem + seq!['.'] + ext) == stem,
        extension_of(ext).len() == 0,
        stem_of(ext) == ext,
        extension_of(seq!['.'] + ext).len() == 0,
        stem_of(seq!['.'] + ext) == seq!['.'] + ext,
{
    let whole = stem + seq!['.'] + ext;
    assert(free_of(whole, '/'));
    lemma_whole(whole);
    assert(whole.last() == ext.last());
    assert(whole != seq!['.', '.']) by {
        assert(whole.last() != '.');
    }
    lemma_dot_before(whole, whole.len() as int);
    let d = dot_before(whole, whole.len() as int);
    assert(whole[stem.len() as int] == '.');
    assert forall|j: int| stem.len() < j < whole.len() implies whole[j] != '.' by {
        assert(whole[j] == ext[j - stem.len() - 1]);
    }
    assert(d == stem.len());
    assert(whole.take(d) =~= stem);
    assert(whole.skip(d + 1) =~= ext);
    lemma_whole(ext);
    assert(ext[0] != '.');
    lemma_dot_before(ext, ext.len() as int);
    let hidden = seq!['.'] + ext;
    assert(free_of(hidden, '/'));
    lemma_whole(hidden);
    assert(hidden.last() == ext.last());
    lemma_dot_before(hidden, hidden.len() as int);
    assert(hidden[0] == '.');
    assert forall|j: int| 0 < j < hidden.len() implies hidden[j] != '.' by {
        assert(hidden[j] == ext[j - 1]);
    }
}

/// A name without a slash is its own last component.
proof fn lemma_whole(name: Seq<char>)
    requires
        free_of(name, '/'),
        name.len() > 0,
        name.last() != '.',
    ensures
        file_name(name) == Some(name),
{
    lemma_next_sep(name, '/', 0);
    let p = pieces(name, '/');
    assert(name.subrange(0, name.len() as int) =~= name);
    assert(p == seq![name]);
    assert(p.last() == name);
    assert(name != seq!['.'] && name != seq!['.', '.']) by {
        assert(seq!['.'].last() == '.' && seq!['.', '.'].last() == '.');
    }
}

/// A file in folders has the extension and the stem that it has by itself.
pub proof fn folders_do_not_change_names(folder: Seq<char>, name: Seq<char>)
    requires
        free_of(name, '/'),
        name.len() > 0,
        name != seq!['.'],
    ensures
        file_name(folder + seq!['/'] + name) == file_name(name),
        file_name(name) is Some ==> extension_of(folder + seq!['/'] + name) == extension_of(name)
            && stem_of(folder + seq!['/'] + name) == stem_of(name),
{
    let whole = folder + seq!['/'] + name;
    lemma_next_sep(name, '/', 0);
    assert(name.subrange(0, name.len() as int) =~= name);
    assert(pieces(name, '/') == seq![name]);
    lemma_last_piece(whole, '/', 0, folder.len() as int);
    assert(whole.skip(folder.len() as int + 1) =~= name);
}

/// What stands behind the last separator is the last piece.
pub proof fn lemma_last_piece(s: Seq<char>, sep: char, start: int, at: int)
    requires
        0 <= start <= at < s.len(),
        s[at] == sep,
        forall|j: int| at < j < s.len() ==> s[j] != sep,
    ensures
        pieces_from(s, sep, start).len() > 0,
        pieces_from(s, sep, start).last() == s.skip(at + 1),
    decreases at - start,
{
    lemma_next_sep(s, sep, start);
    let end = next_sep(s, sep, start);
    assert(end <= at);
    if end < at {
        lemma_last_piece(s, sep, end + 1, at);
    } else {
        lemma_next_sep(s, sep, at + 1);
        assert(pieces_from(s, sep, at + 1) == seq![s.subrange(at + 1, s.len() as int)]);
        assert(s.subrange(at + 1, s.len() as int) =~= s.skip(at + 1));
    }
}

/// What stands behind the last separator is put behind the pieces of what stands in front of it.
proof fn lemma_pieces_behind(s: Seq<char>, sep: char, t: Seq<char>, start: int)
    requires
        free_of(t, sep),
        0 <= start <= s.len(),
    ensures
        pieces_from(s + seq![sep] + t, sep, start) == pieces_from(s, sep, start).push(t),
    decreases s.len() - start,
{
    let whole = s + seq![sep] + t;
    lemma_next_sep(s, sep, start);
    let end = next_sep(s, sep, start);
    assert forall|j: int| start <= j < end implies whole[j] != sep by {
        assert(whole[j] == s[j]);
    }
    if end < s.len() {
        assert(whole[end] == s[end]);
        lemma_next_sep_is(whole, sep, start, end);
        lemma_pieces_behind(s, sep, t, end + 1);
        assert(whole.subrange(start, end) =~= s.subrange(start, end));
        assert(pieces_from(whole, sep, start) =~= pieces_from(s, sep, start).push(t));
    } else {
        assert(whole[end] == sep);
        lemma_next_sep_is(whole, sep, start, end);
        assert forall|j: int| end < j < whole.len() implies whole[j] != sep by {
            assert(whole[j] == t[j - end - 1]);
        }
        lemma_next_sep_is(whole, sep, end + 1, whole.len() as int);
        assert(whole.subrange(start, end) =~= s.subrange(start, s.len() as int));
        assert(whole.subrange(end + 1, whole.len() as int) =~= t);
        assert(pieces_from(whole, sep, end + 1) == seq![t]);
        assert(pieces_from(whole, sep, start) =~= pieces_from(s, sep, start).push(t));
    }
}

/// A slash at the end of a path, and a full stop that is a component of its own, do not change what
/// file it leads to; what leads upwards leads to no file.
pub proof fn paths_lead_to_their_last_component(path: Seq<char>)
    ensures
        file_name(path + seq!['/']) == file_name(path),
        file_name(path + seq!['/', '.']) == file_name(path),
        file_name(path + seq!['/', '.', '.']) is None,
        file_name(Seq::empty()) is None,
{
    let none = Seq::<char>::empty();
    lemma_pieces_behind(path, '/', none, 0);
    lemma_pieces_behind(path, '/', seq!['.'], 0);
    lemma_pieces_behind(path, '/', seq!['.', '.'], 0);
    assert(path + seq!['/'] + none =~= path + seq!['/']);
    assert(path + seq!['/'] + seq!['.'] =~= path + seq!['/', '.']);
    assert(path + seq!['/'] + seq!['.', '.'] =~= path + seq!['/', '.', '.']);
    let p = pieces(path, '/');
    assert(p.push(none).drop_last() =~= p);
    assert(p.push(seq!['.']).drop_last() =~= p);
    assert(seq!['.', '.'].len() == 2 && seq!['.'].len() == 1);
    lemma_next_sep_is(none, '/', 0, 0);
    assert(none.subrange(0, 0) =~= none);
    assert(pieces(none, '/') == seq![none]);
    assert(seq![none].drop_last().len() == 0);
    assert(last_component(seq![none].drop_last()) is None);
}

} // verus!
