//! Text as sequences of characters: trimming, searching, splitting, joining.

use vstd::prelude::*;

pub mod number;
pub mod path;

verus! {

/// Specifies `String::push`: the character is appended, the rest is kept.
pub assume_specification[ String::push ](s: &mut String, c: char)
    ensures
        final(s)@ == old(s)@.push(c),
;

/// The lower case of a text, as Unicode defines it.
pub uninterp spec fn lowercased(s: Seq<char>) -> Seq<char>;

/// The lower case of an ASCII character.
pub open spec fn ascii_lower(c: char) -> char {
    if 'A' <= c <= 'Z' {
        (c as int + 32) as char
    } else {
        c
    }
}

/// Whether a character is an ASCII character or a Chinese one. Chinese has no case.
pub open spec fn is_plain(c: char) -> bool {
    (c as int) < 128 || 0x4e00 <= (c as int) <= 0x9fff
}

/// Whether a text is made of ASCII characters and Chinese ones.
pub open spec fn is_plain_text(s: Seq<char>) -> bool {
    forall|i: int| 0 <= i < s.len() ==> is_plain(#[trigger] s[i])
}

/// A text with `a` to `z` in place of `A` to `Z`.
pub open spec fn plain_lower(s: Seq<char>) -> Seq<char> {
    s.map_values(|c: char| ascii_lower(c))
}

/// Specifies `str::to_lowercase`: the result depends on the text alone; and in a text of ASCII
/// characters and Chinese ones it puts `a` to `z` in place of `A` to `Z` and keeps every other
/// character, since languages without case are not changed. What it does to other texts is not said
/// here.
pub assume_specification[ str::to_lowercase ](s: &str) -> (r: String)
    ensures
        r@ == lowercased(s@),
        is_plain_text(s@) ==> r@ == plain_lower(s@),
;

/// A text in lower case: of ASCII characters and Chinese ones, as is said above.
pub open spec fn lower_of(s: Seq<char>) -> Seq<char> {
    if is_plain_text(s) {
        plain_lower(s)
    } else {
        lowercased(s)
    }
}

// ---------------------------------------------------------------------------
// Conversions
// ---------------------------------------------------------------------------

/// The characters of `s`.
pub fn to_chars(s: &str) -> (r: Vec<char>)
    ensures
        r@ == s@,
{
    let mut out: Vec<char> = Vec::new();
    for c in it: s.chars()
        invariant
            it.seq() == s@,
            out@ == s@.take(it.index() as int),
    {
        out.push(c);
    }
    out
}

/// The text made of the characters from `from` up to, not including, `to`.
pub fn slice_text(v: &[char], from: usize, to: usize) -> (r: String)
    requires
        from <= to <= v@.len(),
    ensures
        r@ == v@.subrange(from as int, to as int),
{
    let mut out = String::new();
    let mut i: usize = from;
    while i < to
        invariant
            from <= i <= to <= v@.len(),
            out@ == v@.subrange(from as int, i as int),
        decreases to - i,
    {
        out.push(v[i]);
        i = i + 1;
    }
    out
}

/// The text made of all of `v`.
pub fn from_chars(v: &[char]) -> (r: String)
    ensures
        r@ == v@,
{
    let r = slice_text(v, 0, v.len());
    assert(v@.subrange(0, v@.len() as int) == v@);
    r
}

/// Whether two texts are equal.
pub fn same(a: &str, b: &str) -> (r: bool)
    ensures
        r == (a@ == b@),
{
    let x = to_chars(a);
    let y = to_chars(b);
    if x.len() != y.len() {
        return false;
    }
    let mut i: usize = 0;
    while i < x.len()
        invariant
            i <= x@.len(),
            x@.len() == y@.len(),
            x@ == a@,
            y@ == b@,
            x@.take(i as int) == y@.take(i as int),
        decreases x@.len() - i,
    {
        if x[i] != y[i] {
            assert(a@[i as int] != b@[i as int]);
            return false;
        }
        assert(x@.take(i + 1) == x@.take(i as int).push(x@[i as int]));
        assert(y@.take(i + 1) == y@.take(i as int).push(y@[i as int]));
        i = i + 1;
    }
    assert(x@.take(i as int) == x@);
    assert(y@.take(i as int) == y@);
    true
}

/// A copy of an optional text.
pub fn copy_option(s: &Option<String>) -> (r: Option<String>)
    ensures
        r == *s,
{
    match s {
        Some(t) => Some(t.clone()),
        None => None,
    }
}

/// A copy of a list of texts.
pub fn copy_list(list: &Vec<String>) -> (r: Vec<String>)
    ensures
        r@ == list@,
{
    let mut r: Vec<String> = Vec::new();
    let mut i: usize = 0;
    while i < list.len()
        invariant
            i <= list@.len(),
            r@ == list@.take(i as int),
        decreases list@.len() - i,
    {
        r.push(list[i].clone());
        i = i + 1;
    }
    assert(list@.take(i as int) =~= list@);
    r
}

/// An optional text as a sequence of characters.
pub open spec fn option_view(s: Option<String>) -> Option<Seq<char>> {
    match s {
        Some(t) => Some(t@),
        None => None,
    }
}

/// The text, or nothing.
pub open spec fn or_empty(s: Option<Seq<char>>) -> Seq<char> {
    match s {
        Some(t) => t,
        None => Seq::empty(),
    }
}

/// An optional text over a sequence of characters.
pub open spec fn str_view(s: Option<&str>) -> Option<Seq<char>> {
    match s {
        Some(t) => Some(t@),
        None => None,
    }
}

/// A list of texts as a sequence of sequences of characters.
pub open spec fn list_view(v: Seq<String>) -> Seq<Seq<char>> {
    v.map_values(|s: String| s@)
}

// ---------------------------------------------------------------------------
// White space
// ---------------------------------------------------------------------------

/// The characters with the Unicode property White_Space.
pub open spec fn is_white(c: char) -> bool {
    ||| '\u{9}' <= c <= '\u{d}'
    ||| c == ' '
    ||| c == '\u{85}'
    ||| c == '\u{a0}'
    ||| c == '\u{1680}'
    ||| '\u{2000}' <= c <= '\u{200a}'
    ||| c == '\u{2028}'
    ||| c == '\u{2029}'
    ||| c == '\u{202f}'
    ||| c == '\u{205f}'
    ||| c == '\u{3000}'
}

/// Whether `c` is white space.
pub fn white(c: char) -> (r: bool)
    ensures
        r == is_white(c),
{
    ('\u{9}' <= c && c <= '\u{d}') || c == ' ' || c == '\u{85}' || c == '\u{a0}' || c == '\u{1680}'
        || ('\u{2000}' <= c && c <= '\u{200a}') || c == '\u{2028}' || c == '\u{2029}' || c
        == '\u{202f}' || c == '\u{205f}' || c == '\u{3000}'
}

/// `s` without its leading white space.
pub open spec fn trim_start(s: Seq<char>) -> Seq<char>
    decreases s.len(),
{
    if s.len() > 0 && is_white(s[0]) {
        trim_start(s.drop_first())
    } else {
        s
    }
}

/// `s` without its trailing white space.
pub open spec fn trim_end(s: Seq<char>) -> Seq<char>
    decreases s.len(),
{
    if s.len() > 0 && is_white(s.last()) {
        trim_end(s.drop_last())
    } else {
        s
    }
}

/// `s` without leading and trailing white space.
pub open spec fn trimmed(s: Seq<char>) -> Seq<char> {
    trim_end(trim_start(s))
}

/// `s` without leading and trailing white space.
pub fn trim(s: &str) -> (r: String)
    ensures
        r@ == trimmed(s@),
{
    let v = to_chars(s);
    let mut from: usize = 0;
    assert(v@.subrange(0, v@.len() as int) == v@);
    while from < v.len() && white(v[from])
        invariant
            from <= v@.len(),
            trim_start(v@) == trim_start(v@.subrange(from as int, v@.len() as int)),
        decreases v@.len() - from,
    {
        let ghost rest = v@.subrange(from as int, v@.len() as int);
        assert(rest.drop_first() == v@.subrange(from + 1, v@.len() as int));
        from = from + 1;
    }
    let mut to: usize = v.len();
    let ghost head = v@.subrange(from as int, v@.len() as int);
    while to > from && white(v[to - 1])
        invariant
            from <= to <= v@.len(),
            trim_end(head) == trim_end(v@.subrange(from as int, to as int)),
        decreases to,
    {
        let ghost rest = v@.subrange(from as int, to as int);
        assert(rest.drop_last() == v@.subrange(from as int, to - 1));
        to = to - 1;
    }
    slice_text(&v, from, to)
}

/// The words of `s` from position `i` on, where `start` is where the word under way began.
pub open spec fn words_from(s: Seq<char>, start: int, i: int) -> Seq<Seq<char>>
    decreases s.len() - i,
{
    if i >= s.len() {
        if start < i {
            seq![s.subrange(start, i)]
        } else {
            Seq::empty()
        }
    } else if is_white(s[i]) {
        if start < i {
            seq![s.subrange(start, i)] + words_from(s, i + 1, i + 1)
        } else {
            words_from(s, i + 1, i + 1)
        }
    } else {
        words_from(s, start, i + 1)
    }
}

/// The maximal runs of characters of `s` that are not white space, in order.
pub open spec fn words(s: Seq<char>) -> Seq<Seq<char>> {
    words_from(s, 0, 0)
}

/// The maximal runs of characters of `v` that are not white space, in order.
pub fn split_words(v: &[char]) -> (r: Vec<String>)
    ensures
        list_view(r@) == words(v@),
{
    let mut out: Vec<String> = Vec::new();
    let mut start: usize = 0;
    let mut i: usize = 0;
    assert(list_view(out@) + words(v@) == words(v@));
    while i < v.len()
        invariant
            start <= i <= v@.len(),
            list_view(out@) + words_from(v@, start as int, i as int) == words(v@),
        decreases v@.len() - i,
    {
        if white(v[i]) {
            if start < i {
                let ghost before = list_view(out@);
                out.push(slice_text(v, start, i));
                assert(list_view(out@) == before.push(v@.subrange(start as int, i as int)));
                assert(list_view(out@) + words_from(v@, i + 1, i + 1) == before + (seq![
                    v@.subrange(start as int, i as int),
                ] + words_from(v@, i + 1, i + 1)));
            }
            start = i + 1;
        }
        i = i + 1;
    }
    if start < i {
        let ghost before = list_view(out@);
        out.push(slice_text(v, start, i));
        assert(list_view(out@) == before.push(v@.subrange(start as int, i as int)));
        assert(list_view(out@) == before + seq![v@.subrange(start as int, i as int)]);
    } else {
        assert(list_view(out@) + Seq::<Seq<char>>::empty() == list_view(out@));
    }
    out
}

// ---------------------------------------------------------------------------
// Searching
// ---------------------------------------------------------------------------

/// Whether `p` occurs in `s` at position `i`.
pub open spec fn occurs_at(s: Seq<char>, p: Seq<char>, i: int) -> bool {
    0 <= i && i + p.len() <= s.len() && s.subrange(i, i + p.len()) == p
}

/// Whether `p` occurs in `s`.
pub open spec fn has_text(s: Seq<char>, p: Seq<char>) -> bool {
    exists|i: int| #[trigger] occurs_at(s, p, i)
}

/// Whether `s` begins with `p`.
pub open spec fn begins_with(s: Seq<char>, p: Seq<char>) -> bool {
    occurs_at(s, p, 0)
}

/// Whether `s` ends with `p`.
pub open spec fn ends_with(s: Seq<char>, p: Seq<char>) -> bool {
    occurs_at(s, p, s.len() - p.len())
}

/// The first position at or after `i` at which `p` occurs in `s`.
pub open spec fn find_from(s: Seq<char>, p: Seq<char>, i: int) -> Option<int>
    decreases s.len() - i + 1,
{
    if i > s.len() {
        None
    } else if occurs_at(s, p, i) {
        Some(i)
    } else {
        find_from(s, p, i + 1)
    }
}

/// The first position of `p` in `s`.
pub open spec fn first_of(s: Seq<char>, p: Seq<char>) -> Option<int> {
    find_from(s, p, 0)
}

/// Whether `p` occurs in `s` at position `i`.
pub fn occurs(s: &[char], p: &[char], i: usize) -> (r: bool)
    ensures
        r == occurs_at(s@, p@, i as int),
{
    let n: usize = s.len();
    if i > n || p.len() > n - i {
        return false;
    }
    let mut k: usize = 0;
    while k < p.len()
        invariant
            n == s@.len(),
            i + p@.len() <= n,
            k <= p@.len(),
            forall|j: int| 0 <= j < k ==> s@[i + j] == p@[j],
        decreases p@.len() - k,
    {
        if s[i + k] != p[k] {
            assert(s@.subrange(i as int, i + p@.len())[k as int] != p@[k as int]);
            return false;
        }
        k = k + 1;
    }
    assert(s@.subrange(i as int, i + p@.len()) =~= p@);
    true
}

/// The first position at or after `from` at which `p` occurs in `s`.
pub fn position(s: &[char], p: &[char], from: usize) -> (r: Option<usize>)
    requires
        from <= s@.len(),
    ensures
        match r {
            Some(i) => find_from(s@, p@, from as int) == Some(i as int) && i <= s@.len(),
            None => find_from(s@, p@, from as int) is None,
        },
{
    let mut i: usize = from;
    loop
        invariant
            from <= i <= s@.len(),
            find_from(s@, p@, from as int) == find_from(s@, p@, i as int),
        decreases s@.len() - i,
    {
        if occurs(s, p, i) {
            return Some(i);
        }
        if i >= s.len() {
            assert(find_from(s@, p@, i + 1) is None);
            return None;
        }
        i = i + 1;
    }
}

/// What `find_from` finds is the first occurrence, and it finds one when there is one.
pub proof fn lemma_find_from(s: Seq<char>, p: Seq<char>, i: int)
    requires
        0 <= i,
    ensures
        match find_from(s, p, i) {
            Some(k) => i <= k && occurs_at(s, p, k) && (forall|j: int|
                i <= j < k ==> !#[trigger] occurs_at(s, p, j)),
            None => forall|j: int| i <= j ==> !#[trigger] occurs_at(s, p, j),
        },
    decreases s.len() - i + 1,
{
    if i <= s.len() && !occurs_at(s, p, i) {
        lemma_find_from(s, p, i + 1);
    }
}

/// What occurs in a text occurs in it with other text around it.
pub proof fn lemma_has_text_within(a: Seq<char>, x: Seq<char>, c: Seq<char>, p: Seq<char>)
    ensures
        has_text(x, p) ==> has_text(a + x + c, p),
{
    if has_text(x, p) {
        let i = choose|i: int| #[trigger] occurs_at(x, p, i);
        let whole = a + x + c;
        let k = a.len() + i;
        assert(whole.subrange(k, k + p.len()) =~= x.subrange(i, i + p.len()));
        assert(occurs_at(whole, p, k));
    }
}

/// Whether `p` occurs in `s`.
pub fn contains(s: &str, p: &str) -> (r: bool)
    ensures
        r == has_text(s@, p@),
{
    let v = to_chars(s);
    let q = to_chars(p);
    proof {
        lemma_find_from(s@, p@, 0);
    }
    match position(&v, &q, 0) {
        Some(i) => {
            assert(occurs_at(s@, p@, i as int));
            true
        },
        None => false,
    }
}

/// Whether `s` begins with `p`.
pub fn starts_with(s: &str, p: &str) -> (r: bool)
    ensures
        r == begins_with(s@, p@),
{
    let v = to_chars(s);
    let q = to_chars(p);
    occurs(&v, &q, 0)
}

/// `s` up to the first `p`, and what follows that `p`.
pub open spec fn once(s: Seq<char>, p: Seq<char>) -> Option<(Seq<char>, Seq<char>)> {
    match first_of(s, p) {
        Some(i) => Some((s.take(i), s.skip(i + p.len()))),
        None => None,
    }
}

/// `s` up to the first `p`, and what follows that `p`.
pub fn split_once(s: &str, p: &str) -> (r: Option<(String, String)>)
    ensures
        match r {
            Some(pair) => once(s@, p@) == Some((pair.0@, pair.1@)),
            None => once(s@, p@) is None,
        },
{
    let v = to_chars(s);
    let q = to_chars(p);
    proof {
        lemma_find_from(s@, p@, 0);
    }
    match position(&v, &q, 0) {
        Some(i) => {
            assert(occurs_at(s@, p@, i as int));
            let n: usize = v.len();
            let head = slice_text(&v, 0, i);
            let tail = slice_text(&v, i + q.len(), n);
            assert(head@ == s@.take(i as int));
            assert(tail@ == s@.skip(i + p@.len()));
            Some((head, tail))
        },
        None => None,
    }
}

/// The first position at or after `i` that holds one of `stops`; the length of `s` if there is none.
pub open spec fn stop_from(s: Seq<char>, stops: Seq<char>, i: int) -> int
    decreases s.len() - i,
{
    if i >= s.len() || stops.contains(s[i]) {
        i
    } else {
        stop_from(s, stops, i + 1)
    }
}

/// `s` up to the first of the characters `stops`.
pub open spec fn before_any(s: Seq<char>, stops: Seq<char>) -> Seq<char> {
    s.take(stop_from(s, stops, 0))
}

/// What `stop_from` finds is the first of the characters, or the end.
pub proof fn lemma_stop_from(s: Seq<char>, stops: Seq<char>, i: int)
    requires
        0 <= i <= s.len(),
    ensures
        i <= stop_from(s, stops, i) <= s.len(),
        forall|j: int| i <= j < stop_from(s, stops, i) ==> !stops.contains(#[trigger] s[j]),
        stop_from(s, stops, i) < s.len() ==> stops.contains(s[stop_from(s, stops, i)]),
    decreases s.len() - i,
{
    if i < s.len() && !stops.contains(s[i]) {
        lemma_stop_from(s, stops, i + 1);
    }
}

/// Whether `c` is one of `v`.
fn among(v: &[char], c: char) -> (r: bool)
    ensures
        r == v@.contains(c),
{
    let mut i: usize = 0;
    while i < v.len()
        invariant
            i <= v@.len(),
            forall|j: int| 0 <= j < i ==> v@[j] != c,
        decreases v@.len() - i,
    {
        if v[i] == c {
            return true;
        }
        i = i + 1;
    }
    false
}

/// `s` up to the first of the characters `stops`.
pub fn until(s: &str, stops: &str) -> (r: String)
    ensures
        r@ == before_any(s@, stops@),
{
    let v = to_chars(s);
    let marks = to_chars(stops);
    let mut i: usize = 0;
    while i < v.len() && !among(&marks, v[i])
        invariant
            i <= v@.len(),
            v@ == s@,
            marks@ == stops@,
            stop_from(s@, stops@, 0) == stop_from(s@, stops@, i as int),
        decreases v@.len() - i,
    {
        i = i + 1;
    }
    let r = slice_text(&v, 0, i);
    assert(r@ == before_any(s@, stops@));
    r
}

/// Whether `s` ends with `p`.
pub fn has_suffix(s: &str, p: &str) -> (r: bool)
    ensures
        r == ends_with(s@, p@),
{
    let v = to_chars(s);
    let q = to_chars(p);
    if q.len() > v.len() {
        return false;
    }
    occurs(&v, &q, v.len() - q.len())
}

// ---------------------------------------------------------------------------
// Splitting and joining
// ---------------------------------------------------------------------------

/// The first position at or after `i` that holds `sep`; the length of `s` if there is none.
pub open spec fn next_sep(s: Seq<char>, sep: char, i: int) -> int
    decreases s.len() - i,
{
    if i >= s.len() || s[i] == sep {
        i
    } else {
        next_sep(s, sep, i + 1)
    }
}

/// The pieces of `s` between separators, from position `start` on.
pub open spec fn pieces_from(s: Seq<char>, sep: char, start: int) -> Seq<Seq<char>>
    decreases s.len() - start,
    when 0 <= start <= s.len()
    via pieces_from_decreases
{
    let end = next_sep(s, sep, start);
    if end >= s.len() {
        seq![s.subrange(start, s.len() as int)]
    } else {
        seq![s.subrange(start, end)] + pieces_from(s, sep, end + 1)
    }
}

#[via_fn]
proof fn pieces_from_decreases(s: Seq<char>, sep: char, start: int) {
    lemma_next_sep(s, sep, start);
}

/// The pieces of `s` between separators: one more than there are separators.
pub open spec fn pieces(s: Seq<char>, sep: char) -> Seq<Seq<char>> {
    pieces_from(s, sep, 0)
}

/// What `next_sep` finds is the first separator, or the end.
pub proof fn lemma_next_sep(s: Seq<char>, sep: char, i: int)
    requires
        0 <= i <= s.len(),
    ensures
        i <= next_sep(s, sep, i) <= s.len(),
        forall|j: int| i <= j < next_sep(s, sep, i) ==> s[j] != sep,
        next_sep(s, sep, i) < s.len() ==> s[next_sep(s, sep, i)] == sep,
    decreases s.len() - i,
{
    if i < s.len() && s[i] != sep {
        lemma_next_sep(s, sep, i + 1);
    }
}

/// The pieces of `s` between separators.
pub fn split(s: &str, sep: char) -> (r: Vec<String>)
    ensures
        list_view(r@) == pieces(s@, sep),
{
    let v = to_chars(s);
    let mut out: Vec<String> = Vec::new();
    let mut start: usize = 0;
    let mut i: usize = 0;
    assert(list_view(out@) + pieces(s@, sep) == pieces(s@, sep));
    while i < v.len()
        invariant
            v@ == s@,
            start <= i <= v@.len(),
            next_sep(s@, sep, start as int) == next_sep(s@, sep, i as int),
            list_view(out@) + pieces_from(s@, sep, start as int) == pieces(s@, sep),
        decreases v@.len() - i,
    {
        if v[i] == sep {
            let ghost before = list_view(out@);
            out.push(slice_text(&v, start, i));
            let ghost piece = s@.subrange(start as int, i as int);
            assert(list_view(out@) == before.push(piece));
            assert(pieces_from(s@, sep, start as int) == seq![piece] + pieces_from(
                s@,
                sep,
                i + 1,
            ));
            assert(before.push(piece) + pieces_from(s@, sep, i + 1) == before + (seq![piece]
                + pieces_from(s@, sep, i + 1)));
            start = i + 1;
        }
        i = i + 1;
    }
    let ghost before = list_view(out@);
    out.push(slice_text(&v, start, v.len()));
    let ghost piece = s@.subrange(start as int, s@.len() as int);
    assert(pieces_from(s@, sep, start as int) == seq![piece]);
    assert(list_view(out@) == before.push(piece));
    assert(before.push(piece) == before + seq![piece]);
    out
}

/// The parts one after the other, with `sep` between each two.
pub open spec fn joined(parts: Seq<Seq<char>>, sep: Seq<char>) -> Seq<char>
    decreases parts.len(),
{
    if parts.len() == 0 {
        Seq::empty()
    } else if parts.len() == 1 {
        parts[0]
    } else {
        joined(parts.drop_last(), sep) + sep + parts.last()
    }
}

/// The parts one after the other, with `sep` between each two.
pub fn join(parts: &[String], sep: &str) -> (r: String)
    ensures
        r@ == joined(list_view(parts@), sep@),
{
    let mut out = String::new();
    let mut i: usize = 0;
    let ghost all = list_view(parts@);
    while i < parts.len()
        invariant
            i <= parts@.len(),
            all == list_view(parts@),
            out@ == joined(all.take(i as int), sep@),
        decreases parts@.len() - i,
    {
        assert(all.take(i + 1).drop_last() == all.take(i as int));
        assert(all.take(i + 1).last() == parts@[i as int]@);
        if i > 0 {
            out.append(sep);
        } else {
            assert(out@ + parts@[0]@ == parts@[0]@);
        }
        out.append(parts[i].as_str());
        i = i + 1;
    }
    assert(all.take(i as int) == all);
    out
}

/// The concatenation of two texts.
pub fn cat(a: &str, b: &str) -> (r: String)
    ensures
        r@ == a@ + b@,
{
    let mut out = String::new();
    out.append(a);
    out.append(b);
    assert(out@ == a@ + b@);
    out
}

/// The concatenation of three texts.
pub fn cat3(a: &str, b: &str, c: &str) -> (r: String)
    ensures
        r@ == a@ + b@ + c@,
{
    let mut out = cat(a, b);
    out.append(c);
    out
}

// ---------------------------------------------------------------------------
// Splitting undoes joining
// ---------------------------------------------------------------------------

/// Whether `c` does not occur in `s`.
pub open spec fn free_of(s: Seq<char>, c: char) -> bool {
    forall|i: int| 0 <= i < s.len() ==> s[i] != c
}

/// The first separator is where nothing before it is one.
pub proof fn lemma_next_sep_is(s: Seq<char>, sep: char, i: int, k: int)
    requires
        0 <= i <= k <= s.len(),
        forall|j: int| i <= j < k ==> s[j] != sep,
        k < s.len() ==> s[k] == sep,
    ensures
        next_sep(s, sep, i) == k,
    decreases k - i,
{
    if i < k {
        lemma_next_sep_is(s, sep, i + 1, k);
    }
}

/// A single character is first found where `next_sep` finds it.
pub proof fn lemma_first_char(s: Seq<char>, c: char)
    ensures
        first_of(s, seq![c]) == if next_sep(s, c, 0) < s.len() {
            Some(next_sep(s, c, 0))
        } else {
            None
        },
{
    lemma_find_from(s, seq![c], 0);
    lemma_next_sep(s, c, 0);
    assert forall|i: int| #[trigger] occurs_at(s, seq![c], i) == (0 <= i < s.len() && s[i] == c) by {
        if 0 <= i < s.len() {
            assert(s.subrange(i, i + 1) =~= seq![s[i]]);
            if s[i] == c {
                assert(occurs_at(s, seq![c], i));
            } else {
                assert(seq![s[i]][0] != seq![c][0]);
            }
        }
    }
    let k = next_sep(s, c, 0);
    if k < s.len() {
        assert(occurs_at(s, seq![c], k));
    }
}

/// No piece holds a separator.
pub proof fn lemma_pieces_free(s: Seq<char>, sep: char, start: int)
    requires
        0 <= start <= s.len(),
    ensures
        pieces_from(s, sep, start).len() > 0,
        forall|i: int|
            0 <= i < pieces_from(s, sep, start).len() ==> free_of(
                #[trigger] pieces_from(s, sep, start)[i],
                sep,
            ),
    decreases s.len() - start,
{
    lemma_next_sep(s, sep, start);
    let end = next_sep(s, sep, start);
    if end < s.len() {
        lemma_pieces_free(s, sep, end + 1);
        let rest = pieces_from(s, sep, end + 1);
        let all = pieces_from(s, sep, start);
        assert(all == seq![s.subrange(start, end)] + rest);
        assert forall|i: int| 0 <= i < all.len() implies free_of(#[trigger] all[i], sep) by {
            if i > 0 {
                assert(all[i] == rest[i - 1]);
            }
        }
    }
}

/// A separator and a piece behind `a` add that piece.
proof fn lemma_pieces_push(a: Seq<char>, sep: char, b: Seq<char>, start: int)
    requires
        0 <= start <= a.len(),
        free_of(b, sep),
    ensures
        pieces_from(a + seq![sep] + b, sep, start) == pieces_from(a, sep, start).push(b),
    decreases a.len() - start,
{
    let whole = a + seq![sep] + b;
    lemma_next_sep(a, sep, start);
    let end = next_sep(a, sep, start);
    assert forall|j: int| start <= j < end implies whole[j] != sep by {
        assert(whole[j] == a[j]);
    }
    if end < a.len() {
        assert(whole[end] == a[end]);
        lemma_next_sep_is(whole, sep, start, end);
        lemma_pieces_push(a, sep, b, end + 1);
        assert(whole.subrange(start, end) =~= a.subrange(start, end));
        assert(seq![a.subrange(start, end)] + pieces_from(a, sep, end + 1).push(b) =~= (seq![
            a.subrange(start, end),
        ] + pieces_from(a, sep, end + 1)).push(b));
    } else {
        assert(whole[end] == sep);
        lemma_next_sep_is(whole, sep, start, end);
        assert forall|j: int| end + 1 <= j < whole.len() implies whole[j] != sep by {
            assert(whole[j] == b[j - end - 1]);
        }
        lemma_next_sep_is(whole, sep, end + 1, whole.len() as int);
        assert(whole.subrange(start, end) =~= a.subrange(start, a.len() as int));
        assert(whole.subrange(end + 1, whole.len() as int) =~= b);
        assert(pieces_from(whole, sep, end + 1) == seq![b]);
        assert(pieces_from(a, sep, start) == seq![a.subrange(start, a.len() as int)]);
        assert(seq![a.subrange(start, a.len() as int)] + seq![b] =~= seq![
            a.subrange(start, a.len() as int),
        ].push(b));
    }
}

/// Parts that hold no separator, and were joined with it, are what splitting gives back.
pub proof fn splitting_undoes_joining(parts: Seq<Seq<char>>, sep: char)
    requires
        parts.len() > 0,
        forall|i: int| 0 <= i < parts.len() ==> free_of(#[trigger] parts[i], sep),
    ensures
        pieces(joined(parts, seq![sep]), sep) == parts,
    decreases parts.len(),
{
    let s = joined(parts, seq![sep]);
    if parts.len() == 1 {
        lemma_next_sep_is(s, sep, 0, s.len() as int);
        assert(s.subrange(0, s.len() as int) =~= s);
        assert(parts =~= seq![parts[0]]);
    } else {
        assert forall|i: int| 0 <= i < parts.drop_last().len() implies free_of(
            #[trigger] parts.drop_last()[i],
            sep,
        ) by {
            assert(parts.drop_last()[i] == parts[i]);
        }
        splitting_undoes_joining(parts.drop_last(), sep);
        assert(free_of(parts[parts.len() - 1], sep));
        lemma_pieces_push(joined(parts.drop_last(), seq![sep]), sep, parts.last(), 0);
        assert(parts.drop_last().push(parts.last()) =~= parts);
    }
}

/// Whether a text is a word: it is not empty, and holds no white space.
pub open spec fn is_word(s: Seq<char>) -> bool {
    &&& s.len() > 0
    &&& forall|i: int| 0 <= i < s.len() ==> !is_white(#[trigger] s[i])
}

/// The words of a text are words of characters of the text.
pub proof fn lemma_words(s: Seq<char>, start: int, i: int)
    requires
        0 <= start <= i <= s.len(),
        forall|j: int| start <= j < i ==> !is_white(#[trigger] s[j]),
    ensures
        forall|k: int|
            0 <= k < words_from(s, start, i).len() ==> is_word(#[trigger] words_from(s, start, i)[k]),
        forall|k: int, j: int|
            0 <= k < words_from(s, start, i).len() && 0 <= j < words_from(s, start, i)[k].len()
                ==> s.contains(#[trigger] words_from(s, start, i)[k][j]),
    decreases s.len() - i,
{
    let all = words_from(s, start, i);
    let word = s.subrange(start, i);
    assert forall|j: int| 0 <= j < word.len() implies s.contains(#[trigger] word[j]) && !is_white(
        word[j],
    ) by {
        assert(s[start + j] == word[j]);
    }
    assert(start < i ==> is_word(word));
    if i < s.len() {
        if is_white(s[i]) {
            lemma_words(s, i + 1, i + 1);
            let rest = words_from(s, i + 1, i + 1);
            if start < i {
                assert(all == seq![word] + rest);
                assert forall|k: int| 0 <= k < all.len() implies is_word(#[trigger] all[k]) by {
                    if k > 0 {
                        assert(all[k] == rest[k - 1]);
                    }
                }
                assert forall|k: int, j: int|
                    0 <= k < all.len() && 0 <= j < all[k].len() implies s.contains(
                    #[trigger] all[k][j],
                ) by {
                    if k > 0 {
                        assert(all[k] == rest[k - 1]);
                        assert(s.contains(rest[k - 1][j]));
                    } else {
                        assert(all[0] == word);
                        assert(s.contains(word[j]));
                    }
                }
            } else {
                assert(all == rest);
            }
        } else {
            lemma_words(s, start, i + 1);
            assert(all == words_from(s, start, i + 1));
        }
    } else if start < i {
        assert(all == seq![word]);
        assert forall|k: int| 0 <= k < all.len() implies is_word(#[trigger] all[k]) by {
            assert(all[0] == word);
        }
        assert forall|k: int, j: int| 0 <= k < all.len() && 0 <= j < all[k].len() implies s.contains(
            #[trigger] all[k][j],
        ) by {
            assert(all[0] == word);
            assert(s.contains(word[j]));
        }
    }
}

/// What has no white space from `i` on has one word from `start` on.
proof fn lemma_last_word(s: Seq<char>, start: int, i: int)
    requires
        0 <= start <= i <= s.len(),
        start < s.len(),
        forall|j: int| i <= j < s.len() ==> !is_white(#[trigger] s[j]),
    ensures
        words_from(s, start, i) == seq![s.subrange(start, s.len() as int)],
    decreases s.len() - i,
{
    if i < s.len() {
        lemma_last_word(s, start, i + 1);
    }
}

/// A space and a word behind `a` add that word.
proof fn lemma_words_push(a: Seq<char>, b: Seq<char>, start: int, i: int)
    requires
        0 <= start <= i <= a.len(),
        is_word(b),
    ensures
        words_from(a + seq![' '] + b, start, i) == words_from(a, start, i).push(b),
    decreases a.len() - i,
{
    let whole = a + seq![' '] + b;
    if i < a.len() {
        assert(whole[i] == a[i]);
        assert(whole.subrange(start, i) =~= a.subrange(start, i));
        if is_white(a[i]) {
            lemma_words_push(a, b, i + 1, i + 1);
            assert(seq![a.subrange(start, i)] + words_from(a, i + 1, i + 1).push(b) =~= (seq![
                a.subrange(start, i),
            ] + words_from(a, i + 1, i + 1)).push(b));
        } else {
            lemma_words_push(a, b, start, i + 1);
        }
    } else {
        assert(whole[i] == ' ');
        assert(whole.subrange(start, i) =~= a.subrange(start, i));
        assert forall|j: int| i + 1 <= j < whole.len() implies !is_white(#[trigger] whole[j]) by {
            assert(whole[j] == b[j - i - 1]);
        }
        lemma_last_word(whole, i + 1, i + 1);
        assert(whole.subrange(i + 1, whole.len() as int) =~= b);
        if start < i {
            assert(seq![a.subrange(start, i)] + seq![b] =~= seq![a.subrange(start, i)].push(b));
        } else {
            assert(Seq::<Seq<char>>::empty().push(b) =~= seq![b]);
        }
    }
}

/// Words that were joined with spaces are the words of the text that this makes.
pub proof fn joined_words_are_found_again(parts: Seq<Seq<char>>)
    requires
        forall|i: int| 0 <= i < parts.len() ==> is_word(#[trigger] parts[i]),
    ensures
        words(joined(parts, seq![' '])) == parts,
    decreases parts.len(),
{
    let s = joined(parts, seq![' ']);
    if parts.len() == 0 {
        assert(words(s) =~= parts);
    } else if parts.len() == 1 {
        assert(is_word(parts[0]));
        lemma_last_word(s, 0, 0);
        assert(s.subrange(0, s.len() as int) =~= s);
        assert(parts =~= seq![parts[0]]);
    } else {
        assert forall|i: int| 0 <= i < parts.drop_last().len() implies is_word(
            #[trigger] parts.drop_last()[i],
        ) by {
            assert(parts.drop_last()[i] == parts[i]);
        }
        joined_words_are_found_again(parts.drop_last());
        assert(is_word(parts[parts.len() - 1]));
        lemma_words_push(joined(parts.drop_last(), seq![' ']), parts.last(), 0, 0);
        assert(parts.drop_last().push(parts.last()) =~= parts);
    }
}

/// What joined words hold is a space or stands in one of them; and they begin and end as a word does.
pub proof fn lemma_joined_words(parts: Seq<Seq<char>>)
    requires
        forall|i: int| 0 <= i < parts.len() ==> is_word(#[trigger] parts[i]),
    ensures
        forall|j: int|
            0 <= j < joined(parts, seq![' ']).len() ==> ({
                let c = #[trigger] joined(parts, seq![' '])[j];
                c == ' ' || exists|k: int| 0 <= k < parts.len() && #[trigger] parts[k].contains(c)
            }),
        parts.len() > 0 ==> {
            let s = joined(parts, seq![' ']);
            s.len() > 0 && !is_white(s[0]) && !is_white(s.last())
        },
    decreases parts.len(),
{
    let s = joined(parts, seq![' ']);
    if parts.len() == 1 {
        assert(is_word(parts[0]));
        assert forall|j: int| 0 <= j < s.len() implies ({
            let c = #[trigger] s[j];
            c == ' ' || exists|k: int| 0 <= k < parts.len() && #[trigger] parts[k].contains(c)
        }) by {
            assert(parts[0].contains(s[j]));
        }
    } else if parts.len() > 1 {
        let rest = parts.drop_last();
        assert forall|i: int| 0 <= i < rest.len() implies is_word(#[trigger] rest[i]) by {
            assert(rest[i] == parts[i]);
        }
        lemma_joined_words(rest);
        let head = joined(rest, seq![' ']);
        let last = parts[parts.len() - 1];
        assert(is_word(last));
        assert(s == head + seq![' '] + last);
        assert forall|j: int| 0 <= j < s.len() implies ({
            let c = #[trigger] s[j];
            c == ' ' || exists|k: int| 0 <= k < parts.len() && #[trigger] parts[k].contains(c)
        }) by {
            if j < head.len() {
                assert(s[j] == head[j]);
                if head[j] != ' ' {
                    let k = choose|k: int| 0 <= k < rest.len() && #[trigger] rest[k].contains(head[j]);
                    assert(parts[k].contains(s[j]));
                }
            } else if j > head.len() {
                assert(s[j] == last[j - head.len() - 1]);
                assert(parts[parts.len() - 1].contains(s[j]));
            }
        }
        assert(s[0] == head[0]);
        assert(s.last() == last.last());
        assert(!is_white(last[last.len() - 1]));
    }
}

} // verus!
