//! Media file names: parsing, classification, and the notation of sizes.

use vstd::prelude::*;

use crate::pattern::{captures, PatternMatch};
#[allow(unused_imports)]
use crate::pattern::{group_of, leftmost_match, match_view, MatchView};
#[allow(unused_imports)]
use crate::text::number::{
    decimal, decimal_int, decimal_i64, decimal_u128, parse_i32, signed_value, two_digits,
    two_digits_i32, within,
};
#[allow(unused_imports)]
use crate::text::path::{extension, extension_of, stem, stem_of};
#[allow(unused_imports)]
use crate::text::{
    contains, has_text, is_plain, is_plain_text, join, joined, joined_words_are_found_again,
    lemma_has_text_within, lemma_joined_words, lemma_words, lower_of, occurs_at, option_view,
    plain_lower, same, slice_text, split_words, to_chars, trim_end, trim_start, trimmed, words,
};

verus! {

// ---------------------------------------------------------------------------
// Patterns
// ---------------------------------------------------------------------------

/// Season and episode: `S01E01`, `第1季第2集`, `EP01`, `第01集`. Groups 1 and 3 hold the season,
/// groups 2, 4, 5 and 6 the episode.
pub const RE_SEASON_EPISODE: &'static str = r"(?ix)
        (?:
            [Ss](?P<s1>\d{1,3})[Ee](?P<e1>\d{1,3})
        |
            第\s*(?P<s2>\d{1,3})\s*季.*?第\s*(?P<e2>\d{1,3})\s*[集话]
        |
            [Ee][Pp]?(?P<e3>\d{1,3})
        |
            第\s*(?P<e4>\d{1,3})\s*[集话]
        )";

/// Year: four digits, 1900 to 2099, between separators. Group 1 holds the year.
pub const RE_YEAR: &'static str =
    r"(?:^|[\s.(【\[])(?P<y>(?:19|20)\d{2})(?:$|[\s.)】\]])";

/// Quality tags: resolution, dynamic range, codec, source. Group 1 holds the tag.
pub const RE_QUALITY: &'static str =
    r"(?i)(?P<q>4[Kk]|2160[pP]|1080[pPiI]|720[pPiI]|480[pP]|HDR(?:10)?|SDR|HEVC|AVC|x265|x264|H\.?265|H\.?264|BluRay|WEB-?DL|HDTV|DVDRip)";

/// Technical tags that end a title: resolution, source, codecs, dynamic range, streaming service,
/// quality. A tag stands between separators; `DV` is not followed by a closing square bracket.
pub const RE_TECH_CUT: &'static str = r"(?ix)
        (?:^|[\s.\-_\[\(])
        (?:
            (?:
                4[Kk]|2160[pP]|1080[pPiI]|720[pPiI]|480[pP]|UHD|FULL[\s._-]?HD
                |WEB[\s._-]?DL|WEBRip|BluRay|Blu[\s._-]?Ray|BDRip|BRRip|BDRemux|REMUX|HDTV|PDTV|HDCam|DVDRip|DVDScr|HDRip
                |[xX]265|[xX]264|H[\s._]?265|H[\s._]?264|HEVC|AVC|AV1|VP9
                |DTS[\s._-]?(?:HD|MA|X|ES)?|TrueHD|EAC3|AC3|AAC|FLAC|LPCM|PCM|MP3
                |DDP?[\s._]?\d[\s._]\d|DD\+[\s._]?\d
                |HDR10\+?|HLG|Dolby[\s._]?Vision
                |NF|AMZN|DSNP|HMAX|ATVP|PCOK|iT\b|STAN|FUNI|CRKL|PMTP|MA
                |IMAX|HQ|HQ[\s._-]?HDR|PROPER|REPACK|RETAIL|REMASTERED
            )
            (?:[\s.\-_\]\)]|$)
        |
            DV(?:[\s.\-_\)]|$)
        )";

// ---------------------------------------------------------------------------
// Parsing a file name
// ---------------------------------------------------------------------------

/// What a media file name says.
#[derive(Debug)]
pub struct ParsedFileName {
    pub title: String,
    pub year: Option<i32>,
    pub season: Option<i32>,
    pub episode: Option<i32>,
    pub quality: Option<String>,
    pub ext: String,
}

/// What a media file name says, over sequences of characters.
pub struct ParsedFileNameView {
    pub title: Seq<char>,
    pub year: Option<i32>,
    pub season: Option<i32>,
    pub episode: Option<i32>,
    pub quality: Option<Seq<char>>,
    pub ext: Seq<char>,
}

impl View for ParsedFileName {
    type V = ParsedFileNameView;

    open spec fn view(&self) -> ParsedFileNameView {
        ParsedFileNameView {
            title: self.title@,
            year: self.year,
            season: self.season,
            episode: self.episode,
            quality: option_view(self.quality),
            ext: self.ext@,
        }
    }
}

/// What a media file name says, if there is one.
pub open spec fn said(name: Option<&ParsedFileName>) -> Option<ParsedFileNameView> {
    match name {
        Some(p) => Some(p@),
        None => None,
    }
}

impl Default for ParsedFileName {
    /// A name that says nothing.
    fn default() -> (r: Self)
        ensures
            r@ == (ParsedFileNameView {
                title: Seq::empty(),
                year: None,
                season: None,
                episode: None,
                quality: None,
                ext: Seq::empty(),
            }),
    {
        ParsedFileName {
            title: String::new(),
            year: None,
            season: None,
            episode: None,
            quality: None,
            ext: String::new(),
        }
    }
}

/// Dots and underscores read as spaces.
pub open spec fn spaced(c: char) -> char {
    if c == '.' || c == '_' {
        ' '
    } else {
        c
    }
}

/// A file name's stem with dots and underscores replaced by spaces.
pub open spec fn normalized(stem: Seq<char>) -> Seq<char> {
    stem.map_values(|c: char| spaced(c))
}

/// Characters that a title does not hold.
pub open spec fn is_noise(c: char) -> bool {
    c == '.' || c == '_' || c == '-' || c == '[' || c == ']' || c == '(' || c == ')' || c == '【'
        || c == '】' || c == '《' || c == '》'
}

/// Noise reads as a space.
pub open spec fn quiet(c: char) -> char {
    if is_noise(c) {
        ' '
    } else {
        c
    }
}

/// The words of a title, without noise, with one space between each two.
pub open spec fn cleaned(raw: Seq<char>) -> Seq<char> {
    joined(words(raw.map_values(|c: char| quiet(c))), seq![' '])
}

/// The number that a group holds, if any.
pub open spec fn number_in(group: Option<Seq<char>>) -> Option<i32> {
    match group {
        Some(t) => match within(signed_value(t), i32::MIN as int, i32::MAX as int) {
            Some(n) => Some(n as i32),
            None => None,
        },
        None => None,
    }
}

/// The first of two that is there.
pub open spec fn either<T>(a: Option<T>, b: Option<T>) -> Option<T> {
    if a is Some {
        a
    } else {
        b
    }
}

/// Where a match begins, or `len` if there is none or if it begins later.
pub open spec fn cut_at(m: Option<MatchView>, len: int) -> int {
    match m {
        Some(m) => if m.0 < len {
            m.0 as int
        } else {
            len
        },
        None => len,
    }
}

/// What a name says, given what the patterns found in its normalized stem `norm`: the title is what
/// stands before the first of season and episode, year, and technical tags.
pub open spec fn assembled(
    ext: Seq<char>,
    norm: Seq<char>,
    quality: Option<MatchView>,
    season_episode: Option<MatchView>,
    year: Option<MatchView>,
    tech: Option<MatchView>,
) -> ParsedFileNameView {
    let cut = cut_at(tech, cut_at(year, cut_at(season_episode, norm.len() as int)));
    ParsedFileNameView {
        title: cleaned(norm.take(cut)),
        year: match year {
            Some(m) => number_in(group_of(m, 1)),
            None => None,
        },
        season: match season_episode {
            Some(m) => number_in(either(group_of(m, 1), group_of(m, 3))),
            None => None,
        },
        episode: match season_episode {
            Some(m) => number_in(
                either(
                    group_of(m, 2),
                    either(group_of(m, 4), either(group_of(m, 5), group_of(m, 6))),
                ),
            ),
            None => None,
        },
        quality: match quality {
            Some(m) => group_of(m, 1),
            None => None,
        },
        ext,
    }
}

/// What a media file name says.
pub open spec fn parsed(file_name: Seq<char>) -> ParsedFileNameView {
    let norm = normalized(stem_of(file_name));
    assembled(
        lower_of(extension_of(file_name)),
        norm,
        leftmost_match(RE_QUALITY@, norm),
        leftmost_match(RE_SEASON_EPISODE@, norm),
        leftmost_match(RE_YEAR@, norm),
        leftmost_match(RE_TECH_CUT@, norm),
    )
}

/// The number that a group holds, if any.
fn read_number(group: Option<&String>) -> (r: Option<i32>)
    ensures
        r == number_in(
            match group {
                Some(t) => Some(t@),
                None => None,
            },
        ),
{
    match group {
        Some(t) => parse_i32(t.as_str()),
        None => None,
    }
}

/// The earlier of `cut` and where `m` begins.
fn earlier(m: &Option<PatternMatch>, cut: usize) -> (r: usize)
    ensures
        r == cut_at(match_view(*m), cut as int),
        r <= cut,
{
    match m {
        Some(m) => if m.start < cut {
            m.start
        } else {
            cut
        },
        None => cut,
    }
}

/// What a name says, given what the patterns found in its normalized stem.
pub fn assemble(
    ext: String,
    norm: &str,
    quality: Option<PatternMatch>,
    season_episode: Option<PatternMatch>,
    year: Option<PatternMatch>,
    tech: Option<PatternMatch>,
) -> (r: ParsedFileName)
    ensures
        r@ == assembled(
            ext@,
            norm@,
            match_view(quality),
            match_view(season_episode),
            match_view(year),
            match_view(tech),
        ),
{
    let chars = to_chars(norm);
    let cut = earlier(&tech, earlier(&year, earlier(&season_episode, chars.len())));
    let raw = slice_text(&chars, 0, cut);
    assert(raw@ == norm@.take(cut as int));
    let title = clean_title(raw.as_str());
    let quality_tag: Option<String> = match &quality {
        Some(m) => match m.group(1) {
            Some(t) => Some(t.clone()),
            None => None,
        },
        None => None,
    };
    let season: Option<i32> = match &season_episode {
        Some(m) => {
            let first = m.group(1);
            read_number(
                if first.is_some() {
                    first
                } else {
                    m.group(3)
                },
            )
        },
        None => None,
    };
    let episode: Option<i32> = match &season_episode {
        Some(m) => {
            let a = m.group(2);
            let b = m.group(4);
            let c = m.group(5);
            read_number(
                if a.is_some() {
                    a
                } else if b.is_some() {
                    b
                } else if c.is_some() {
                    c
                } else {
                    m.group(6)
                },
            )
        },
        None => None,
    };
    let year_number: Option<i32> = match &year {
        Some(m) => read_number(m.group(1)),
        None => None,
    };
    ParsedFileName { title, year: year_number, season, episode, quality: quality_tag, ext }
}

/// A stem with dots and underscores replaced by spaces.
fn normalize(stem: &str) -> (r: String)
    ensures
        r@ == normalized(stem@),
{
    let v = to_chars(stem);
    let mut out = String::new();
    let mut i: usize = 0;
    while i < v.len()
        invariant
            i <= v@.len(),
            v@ == stem@,
            out@ == normalized(stem@.take(i as int)),
        decreases v@.len() - i,
    {
        let c = v[i];
        out.push(
            if c == '.' || c == '_' {
                ' '
            } else {
                c
            },
        );
        assert(normalized(stem@.take(i + 1)) == normalized(stem@.take(i as int)).push(spaced(c)));
        i = i + 1;
    }
    assert(stem@.take(i as int) == stem@);
    out
}

/// Parses a media file name: title, year, season, episode, quality and extension.
pub fn parse_file_name(file_name: &str) -> (r: ParsedFileName)
    ensures
        r@ == parsed(file_name@),
{
    let ext = extension(file_name).as_str().to_lowercase();
    let norm = normalize(stem(file_name).as_str());
    let quality = captures(RE_QUALITY, norm.as_str());
    let season_episode = captures(RE_SEASON_EPISODE, norm.as_str());
    let year = captures(RE_YEAR, norm.as_str());
    let tech = captures(RE_TECH_CUT, norm.as_str());
    assemble(ext, norm.as_str(), quality, season_episode, year, tech)
}

/// The words of a title, without noise, with one space between each two.
pub fn clean_title(raw: &str) -> (r: String)
    ensures
        r@ == cleaned(raw@),
{
    let v = to_chars(raw);
    let mut quieted: Vec<char> = Vec::new();
    let mut i: usize = 0;
    while i < v.len()
        invariant
            i <= v@.len(),
            v@ == raw@,
            quieted@ == raw@.take(i as int).map_values(|c: char| quiet(c)),
        decreases v@.len() - i,
    {
        let c = v[i];
        let noisy = c == '.' || c == '_' || c == '-' || c == '[' || c == ']' || c == '(' || c
            == ')' || c == '【' || c == '】' || c == '《' || c == '》';
        quieted.push(
            if noisy {
                ' '
            } else {
                c
            },
        );
        assert(raw@.take(i + 1) == raw@.take(i as int).push(c));
        i = i + 1;
    }
    assert(raw@.take(i as int) == raw@);
    let parts = split_words(&quieted);
    proof {
        reveal_strlit(" ");
        assert(" "@ == seq![' ']);
    }
    join(&parts, " ")
}

/// A title holds no noise and no white space around it, and is left as it is when it is cleaned once
/// more.
pub proof fn titles_are_clean(raw: Seq<char>)
    ensures
        forall|i: int| 0 <= i < cleaned(raw).len() ==> !is_noise(#[trigger] cleaned(raw)[i]),
        trimmed(cleaned(raw)) == cleaned(raw),
        cleaned(cleaned(raw)) == cleaned(raw),
{
    let quieted = raw.map_values(|c: char| quiet(c));
    let parts = words(quieted);
    let title = cleaned(raw);
    lemma_words(quieted, 0, 0);
    lemma_joined_words(parts);
    assert forall|i: int| 0 <= i < title.len() implies !is_noise(#[trigger] title[i]) by {
        let c = title[i];
        if c != ' ' {
            let k = choose|k: int| 0 <= k < parts.len() && #[trigger] parts[k].contains(c);
            let j = choose|j: int| 0 <= j < parts[k].len() && parts[k][j] == c;
            assert(quieted.contains(parts[k][j]));
            let n = choose|n: int| 0 <= n < quieted.len() && quieted[n] == c;
            assert(quieted[n] == quiet(raw[n]));
        }
    }
    assert(title.map_values(|c: char| quiet(c)) =~= title);
    joined_words_are_found_again(parts);
    if parts.len() > 0 {
        assert(trim_start(title) == title);
        assert(trim_end(title) == title);
    }
}

// ---------------------------------------------------------------------------
// Classification
// ---------------------------------------------------------------------------

/// The extensions of video files.
pub open spec fn is_video_extension(ext: Seq<char>) -> bool {
    ext == "mkv"@ || ext == "mp4"@ || ext == "avi"@ || ext == "mov"@ || ext == "wmv"@ || ext
        == "flv"@ || ext == "m2ts"@ || ext == "ts"@ || ext == "rmvb"@ || ext == "rm"@ || ext
        == "iso"@ || ext == "bdmv"@
}

/// The extensions of subtitle files.
pub open spec fn is_subtitle_extension(ext: Seq<char>) -> bool {
    ext == "srt"@ || ext == "ass"@ || ext == "ssa"@ || ext == "sub"@ || ext == "idx"@ || ext
        == "sup"@ || ext == "vtt"@
}

/// Whether a text in lower case holds a word that marks advertising or junk.
pub open spec fn has_ad_keyword(lower: Seq<char>) -> bool {
    has_text(lower, "www."@) || has_text(lower, ".com"@) || has_text(lower, ".net"@) || has_text(
        lower,
        ".cn"@,
    ) || has_text(lower, "广告"@) || has_text(lower, "招募"@) || has_text(lower, "合集"@)
        || has_text(lower, "整合"@) || has_text(lower, "搬运"@) || has_text(lower, "字幕组"@)
        || has_text(lower, "公众号"@)
}

/// Whether a file is a video, by its extension in lower case.
pub open spec fn is_video(file_name: Seq<char>) -> bool {
    is_video_extension(lower_of(extension_of(file_name)))
}

/// Whether a file is a subtitle, by its extension in lower case.
pub open spec fn is_subtitle(file_name: Seq<char>) -> bool {
    is_subtitle_extension(lower_of(extension_of(file_name)))
}

/// Whether a file name holds a word that marks advertising or junk.
pub open spec fn is_ad(file_name: Seq<char>) -> bool {
    has_ad_keyword(lower_of(file_name))
}

/// Whether `ext`, in lower case, is the extension of a video file.
pub fn video_extension(ext: &str) -> (r: bool)
    ensures
        r == is_video_extension(ext@),
{
    same(ext, "mkv") || same(ext, "mp4") || same(ext, "avi") || same(ext, "mov") || same(ext, "wmv")
        || same(ext, "flv") || same(ext, "m2ts") || same(ext, "ts") || same(ext, "rmvb") || same(
        ext,
        "rm",
    ) || same(ext, "iso") || same(ext, "bdmv")
}

/// Whether `ext`, in lower case, is the extension of a subtitle file.
pub fn subtitle_extension(ext: &str) -> (r: bool)
    ensures
        r == is_subtitle_extension(ext@),
{
    same(ext, "srt") || same(ext, "ass") || same(ext, "ssa") || same(ext, "sub") || same(ext, "idx")
        || same(ext, "sup") || same(ext, "vtt")
}

/// Whether `lower`, a text in lower case, holds a word that marks advertising or junk.
pub fn ad_keyword(lower: &str) -> (r: bool)
    ensures
        r == has_ad_keyword(lower@),
{
    contains(lower, "www.") || contains(lower, ".com") || contains(lower, ".net") || contains(
        lower,
        ".cn",
    ) || contains(lower, "广告") || contains(lower, "招募") || contains(lower, "合集")
        || contains(lower, "整合") || contains(lower, "搬运") || contains(lower, "字幕组")
        || contains(lower, "公众号")
}

/// Whether the file is a video.
pub fn is_video_file(file_name: &str) -> (r: bool)
    ensures
        r == is_video(file_name@),
{
    video_extension(extension(file_name).as_str().to_lowercase().as_str())
}

/// Whether the file is a subtitle.
pub fn is_subtitle_file(file_name: &str) -> (r: bool)
    ensures
        r == is_subtitle(file_name@),
{
    subtitle_extension(extension(file_name).as_str().to_lowercase().as_str())
}

/// Whether the file name holds a word that marks advertising or junk.
pub fn is_ad_file(file_name: &str) -> (r: bool)
    ensures
        r == is_ad(file_name@),
{
    ad_keyword(file_name.to_lowercase().as_str())
}

/// A word that marks advertising or junk marks it with any text around it, too.
pub proof fn ad_keywords_stay(a: Seq<char>, x: Seq<char>, c: Seq<char>)
    ensures
        has_ad_keyword(x) ==> has_ad_keyword(a + x + c),
{
    lemma_has_text_within(a, x, c, "www."@);
    lemma_has_text_within(a, x, c, ".com"@);
    lemma_has_text_within(a, x, c, ".net"@);
    lemma_has_text_within(a, x, c, ".cn"@);
    lemma_has_text_within(a, x, c, "广告"@);
    lemma_has_text_within(a, x, c, "招募"@);
    lemma_has_text_within(a, x, c, "合集"@);
    lemma_has_text_within(a, x, c, "整合"@);
    lemma_has_text_within(a, x, c, "搬运"@);
    lemma_has_text_within(a, x, c, "字幕组"@);
    lemma_has_text_within(a, x, c, "公众号"@);
}

/// A file name of ASCII characters and Chinese ones that is marked as advertising stays so with any
/// such text around it.
pub proof fn ads_stay_ads(a: Seq<char>, x: Seq<char>, c: Seq<char>)
    requires
        is_plain_text(a),
        is_plain_text(x),
        is_plain_text(c),
    ensures
        is_ad(x) ==> is_ad(a + x + c),
{
    let whole = a + x + c;
    assert(is_plain_text(whole)) by {
        assert forall|i: int| 0 <= i < whole.len() implies is_plain(#[trigger] whole[i]) by {
            if i < a.len() {
                assert(whole[i] == a[i]);
            } else if i < a.len() + x.len() {
                assert(whole[i] == x[i - a.len()]);
            } else {
                assert(whole[i] == c[i - a.len() - x.len()]);
            }
        }
    }
    assert(plain_lower(whole) =~= plain_lower(a) + plain_lower(x) + plain_lower(c));
    ad_keywords_stay(plain_lower(a), plain_lower(x), plain_lower(c));
}

/// A file name that is marked as advertising marks any other whose lower case holds its lower case.
pub proof fn ads_mark_what_holds_them(x: Seq<char>, whole: Seq<char>)
    ensures
        is_ad(x) && has_text(lower_of(whole), lower_of(x)) ==> is_ad(whole),
{
    let l = lower_of(whole);
    let m = lower_of(x);
    if has_text(l, m) {
        let i = choose|i: int| #[trigger] occurs_at(l, m, i);
        assert(l =~= l.take(i) + m + l.skip(i + m.len()));
        ad_keywords_stay(l.take(i), m, l.skip(i + m.len()));
    }
}

/// No extension is both that of a video and that of a subtitle.
pub proof fn video_and_subtitle_are_apart(ext: Seq<char>)
    ensures
        !(is_video_extension(ext) && is_subtitle_extension(ext)),
{
    reveal_strlit("mkv");
    reveal_strlit("mp4");
    reveal_strlit("avi");
    reveal_strlit("mov");
    reveal_strlit("wmv");
    reveal_strlit("flv");
    reveal_strlit("m2ts");
    reveal_strlit("ts");
    reveal_strlit("rmvb");
    reveal_strlit("rm");
    reveal_strlit("iso");
    reveal_strlit("bdmv");
    reveal_strlit("srt");
    reveal_strlit("ass");
    reveal_strlit("ssa");
    reveal_strlit("sub");
    reveal_strlit("idx");
    reveal_strlit("sup");
    reveal_strlit("vtt");
    if is_subtitle_extension(ext) {
        assert(ext.len() == 3);
        assert(ext[0] == 's' || ext[0] == 'v' || (ext[0] == 'a' && ext[1] == 's') || (ext[0] == 'i'
            && ext[1] == 'd'));
        if is_video_extension(ext) {
            assert(ext[0] == 'm' || ext[0] == 'w' || ext[0] == 'f' || (ext[0] == 'a' && ext[1]
                == 'v') || (ext[0] == 'i' && ext[1] == 's'));
        }
    }
}

// ---------------------------------------------------------------------------
// Sizes
// ---------------------------------------------------------------------------

/// `n / d` rounded to the nearest integer, a tie to the even one.
pub open spec fn nearest(n: nat, d: nat) -> nat {
    let q = n / d;
    let r = n % d;
    if 2 * r > d || (2 * r == d && q % 2 == 1) {
        q + 1
    } else {
        q
    }
}

/// The distance between neighbouring binary numbers of 53 significant bits near `n`.
pub open spec fn spacing(n: nat) -> nat
    decreases n,
{
    if n < 0x20_0000_0000_0000 {
        1
    } else {
        2 * spacing(n / 2)
    }
}

/// `n` rounded to 53 significant bits, the precision that sizes are computed with.
pub open spec fn rounded(n: nat) -> nat {
    nearest(n, spacing(n)) * spacing(n)
}

/// `bytes / unit` with two decimals.
pub open spec fn two_decimals(bytes: nat, unit: nat) -> Seq<char> {
    let h = nearest(rounded(bytes) * 100, unit);
    decimal(h / 100) + "."@ + two_digits((h % 100) as int)
}

/// `bytes / unit` with one decimal.
pub open spec fn one_decimal(bytes: nat, unit: nat) -> Seq<char> {
    let t = nearest(rounded(bytes) * 10, unit);
    decimal(t / 10) + "."@ + decimal(t % 10)
}

/// A size in the largest unit that it reaches: two decimals for GB and MB, one for KB, none for
/// bytes.
pub open spec fn size_text(bytes: int) -> Seq<char> {
    if bytes >= 0x4000_0000 {
        two_decimals(bytes as nat, 0x4000_0000) + " GB"@
    } else if bytes >= 0x10_0000 {
        two_decimals(bytes as nat, 0x10_0000) + " MB"@
    } else if bytes >= 0x400 {
        one_decimal(bytes as nat, 0x400) + " KB"@
    } else {
        decimal_int(bytes) + " B"@
    }
}

/// `n / d` rounded to the nearest integer, a tie to the even one.
fn nearest_u128(n: u128, d: u128) -> (r: u128)
    requires
        0 < d < 0x1_0000_0000_0000_0000,
        n < 0x1_0000_0000_0000_0000_0000_0000,
    ensures
        r == nearest(n as nat, d as nat),
        r <= n + 1,
{
    let q: u128 = n / d;
    let rest: u128 = n % d;
    proof {
        assert(q <= n) by (nonlinear_arith)
            requires
                q == n / d,
                d > 0,
        ;
    }
    if 2 * rest > d || (2 * rest == d && q % 2 == 1) {
        q + 1
    } else {
        q
    }
}

/// The distance between neighbouring binary numbers of 53 significant bits near `n`.
fn spacing_u64(n: u64) -> (r: u64)
    ensures
        r == spacing(n as nat),
        1 <= r,
        r == 1 || r * 0x10_0000_0000_0000 <= n,
    decreases n,
{
    if n < 0x20_0000_0000_0000 {
        1
    } else {
        2 * spacing_u64(n / 2)
    }
}

/// `n` rounded to 53 significant bits.
fn round_u64(n: u64) -> (r: u128)
    ensures
        r == rounded(n as nat),
        r < 0x1_0000_0000_0000_0000_0000,
{
    let s = spacing_u64(n) as u128;
    let q = nearest_u128(n as u128, s);
    proof {
        assert(q * s < 0x1_0000_0000_0000_0000_0000) by (nonlinear_arith)
            requires
                q <= 0x1_0000_0000_0000_0000,
                s <= 0x1000,
        ;
    }
    q * s
}

/// `bytes / unit` with two decimals.
fn print_two_decimals(bytes: u64, unit: u64) -> (r: String)
    requires
        unit > 0,
    ensures
        r@ == two_decimals(bytes as nat, unit as nat),
{
    let h = nearest_u128(round_u64(bytes) * 100, unit as u128);
    let mut out = decimal_u128(h / 100);
    out.append(".");
    out.append(two_digits_i32((h % 100) as i32).as_str());
    out
}

/// `bytes / unit` with one decimal.
fn print_one_decimal(bytes: u64, unit: u64) -> (r: String)
    requires
        unit > 0,
    ensures
        r@ == one_decimal(bytes as nat, unit as nat),
{
    let t = nearest_u128(round_u64(bytes) * 10, unit as u128);
    let mut out = decimal_u128(t / 10);
    out.append(".");
    out.append(decimal_u128(t % 10).as_str());
    out
}

/// A number of bytes as a readable text.
pub fn format_size(bytes: i64) -> (r: String)
    ensures
        r@ == size_text(bytes as int),
{
    if bytes >= 0x4000_0000 {
        let mut out = print_two_decimals(bytes as u64, 0x4000_0000);
        out.append(" GB");
        out
    } else if bytes >= 0x10_0000 {
        let mut out = print_two_decimals(bytes as u64, 0x10_0000);
        out.append(" MB");
        out
    } else if bytes >= 0x400 {
        let mut out = print_one_decimal(bytes as u64, 0x400);
        out.append(" KB");
        out
    } else {
        let mut out = decimal_i64(bytes);
        out.append(" B");
        out
    }
}

} // verus!
