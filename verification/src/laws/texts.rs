//! Laws of texts and numbers.

use vstd::prelude::*;

#[allow(unused_imports)]
use crate::text::number::{
    all_digits, decimal_int_is_read_back, decimal_is_read_back, digits_value, signed_value,
    two_digits, unsigned_value,
};
#[allow(unused_imports)]
use crate::text::{
    begins_with, ends_with, free_of, has_text, is_white, is_word, joined, lemma_next_sep,
    lemma_pieces_free, next_sep, occurs_at, pieces, pieces_from, trim_end, trim_start, trimmed,
    words, words_from,
};

verus! {

/// Whether a text is white space alone.
pub open spec fn is_blank(s: Seq<char>) -> bool {
    forall|i: int| 0 <= i < s.len() ==> is_white(#[trigger] s[i])
}

/// Whether a text has no white space around it.
pub open spec fn is_tight(s: Seq<char>) -> bool {
    s.len() > 0 ==> !is_white(s[0]) && !is_white(s.last())
}

/// White space in front is trimmed.
proof fn lemma_trim_front(a: Seq<char>, s: Seq<char>)
    requires
        is_blank(a),
    ensures
        trim_start(a + s) == trim_start(s),
    decreases a.len(),
{
    if a.len() == 0 {
        assert(a + s =~= s);
    } else {
        let rest = a.drop_first();
        assert(is_blank(rest)) by {
            assert forall|i: int| 0 <= i < rest.len() implies is_white(#[trigger] rest[i]) by {
                assert(rest[i] == a[i + 1]);
            }
        }
        lemma_trim_front(rest, s);
        assert(is_white(a[0]));
        assert((a + s)[0] == a[0]);
        assert((a + s).drop_first() =~= rest + s);
    }
}

/// White space behind is trimmed.
proof fn lemma_trim_back(s: Seq<char>, b: Seq<char>)
    requires
        is_blank(b),
    ensures
        trim_end(s + b) == trim_end(s),
    decreases b.len(),
{
    if b.len() == 0 {
        assert(s + b =~= s);
    } else {
        let rest = b.drop_last();
        assert(is_blank(rest)) by {
            assert forall|i: int| 0 <= i < rest.len() implies is_white(#[trigger] rest[i]) by {
                assert(rest[i] == b[i]);
            }
        }
        lemma_trim_back(s, rest);
        assert(is_white(b[b.len() - 1]));
        assert((s + b).last() == b[b.len() - 1]);
        assert((s + b).drop_last() =~= s + rest);
    }
}

/// Trimming takes away the white space around a text, all of it and nothing else.
pub proof fn trimming_takes_white_space_only(a: Seq<char>, s: Seq<char>, b: Seq<char>)
    requires
        is_blank(a),
        is_blank(b),
        is_tight(s),
    ensures
        trimmed(a + s + b) == s,
{
    assert(a + s + b =~= a + (s + b));
    lemma_trim_front(a, s + b);
    if s.len() == 0 {
        assert(s + b =~= b + s);
        lemma_trim_front(b, s);
        assert(trim_start(s) == s);
    } else {
        assert((s + b)[0] == s[0]);
        assert(trim_start(s + b) == s + b);
        lemma_trim_back(s, b);
    }
}

/// Words do not depend on where in a text they stand.
proof fn lemma_words_shift(a: Seq<char>, b: Seq<char>, start: int, i: int)
    requires
        0 <= start <= i <= b.len(),
    ensures
        words_from(a + b, a.len() + start, a.len() + i) == words_from(b, start, i),
    decreases b.len() - i,
{
    let whole = a + b;
    let k = a.len() as int;
    assert(whole.subrange(k + start, k + i) =~= b.subrange(start, i));
    if i < b.len() {
        assert(whole[k + i] == b[i]);
        if is_white(b[i]) {
            lemma_words_shift(a, b, i + 1, i + 1);
        } else {
            lemma_words_shift(a, b, start, i + 1);
        }
    }
}

/// White space between two texts parts their words.
proof fn lemma_words_part(a: Seq<char>, c: char, b: Seq<char>, start: int, i: int)
    requires
        0 <= start <= i <= a.len(),
        is_white(c),
    ensures
        words_from(a + seq![c] + b, start, i) == words_from(a, start, i) + words(b),
    decreases a.len() - i,
{
    let whole = a + seq![c] + b;
    assert(whole.subrange(start, i) =~= a.subrange(start, i));
    if i < a.len() {
        assert(whole[i] == a[i]);
        if is_white(a[i]) {
            lemma_words_part(a, c, b, i + 1, i + 1);
            assert(seq![a.subrange(start, i)] + (words_from(a, i + 1, i + 1) + words(b)) =~= seq![
                a.subrange(start, i),
            ] + words_from(a, i + 1, i + 1) + words(b));
        } else {
            lemma_words_part(a, c, b, start, i + 1);
        }
    } else {
        assert(whole[i] == c);
        assert(whole =~= (a + seq![c]) + b);
        lemma_words_shift(a + seq![c], b, 0, 0);
        assert(Seq::<Seq<char>>::empty() + words(b) =~= words(b));
    }
}

/// What has no white space is a single word, from where it began.
proof fn lemma_one_word(s: Seq<char>, i: int)
    requires
        is_word(s),
        0 <= i <= s.len(),
    ensures
        words_from(s, 0, i) == seq![s],
    decreases s.len() - i,
{
    if i < s.len() {
        assert(!is_white(s[i]));
        lemma_one_word(s, i + 1);
    } else {
        assert(s.subrange(0, i) =~= s);
    }
}

/// The words of a text: nothing has none, what holds no white space is one, and white space parts
/// those before it from those behind.
pub proof fn words_are_parted_by_white_space(a: Seq<char>, c: char, b: Seq<char>)
    requires
        is_white(c),
    ensures
        words(Seq::empty()).len() == 0,
        is_word(a) ==> words(a) == seq![a],
        words(a + seq![c] + b) == words(a) + words(b),
{
    lemma_words_part(a, c, b, 0, 0);
    if is_word(a) {
        lemma_one_word(a, 0);
    }
}

/// Lists that are joined one behind the other are joined with the separator between.
pub proof fn joining_goes_part_by_part(a: Seq<Seq<char>>, b: Seq<Seq<char>>, sep: Seq<char>)
    requires
        a.len() > 0,
        b.len() > 0,
    ensures
        joined(a + b, sep) == joined(a, sep) + sep + joined(b, sep),
    decreases b.len(),
{
    assert((a + b).drop_last() =~= a + b.drop_last());
    assert((a + b).last() == b.last());
    if b.len() == 1 {
        assert(a + b.drop_last() =~= a);
    } else {
        joining_goes_part_by_part(a, b.drop_last(), sep);
        assert(joined(a, sep) + sep + (joined(b.drop_last(), sep) + sep + b.last()) =~= joined(
            a,
            sep,
        ) + sep + joined(b.drop_last(), sep) + sep + b.last());
    }
}

/// What stands from `start` on is made of its pieces.
proof fn lemma_joined_pieces(s: Seq<char>, sep: char, start: int)
    requires
        0 <= start <= s.len(),
    ensures
        joined(pieces_from(s, sep, start), seq![sep]) == s.skip(start),
    decreases s.len() - start,
{
    lemma_next_sep(s, sep, start);
    let end = next_sep(s, sep, start);
    if end < s.len() {
        let first = s.subrange(start, end);
        let rest = pieces_from(s, sep, end + 1);
        lemma_joined_pieces(s, sep, end + 1);
        lemma_pieces_free(s, sep, end + 1);
        joining_goes_part_by_part(seq![first], rest, seq![sep]);
        assert(joined(seq![first], seq![sep]) == first);
        assert(first + seq![sep] + s.skip(end + 1) =~= s.skip(start));
    } else {
        assert(s.subrange(start, s.len() as int) =~= s.skip(start));
    }
}

/// A text is made of its pieces, none of which holds the separator.
pub proof fn joining_undoes_splitting(s: Seq<char>, sep: char)
    ensures
        joined(pieces(s, sep), seq![sep]) == s,
        forall|i: int| 0 <= i < pieces(s, sep).len() ==> free_of(#[trigger] pieces(s, sep)[i], sep),
{
    lemma_joined_pieces(s, sep, 0);
    lemma_pieces_free(s, sep, 0);
    assert(s.skip(0) =~= s);
}

/// A number with two digits reads as the number, and has two characters at least.
pub proof fn two_digits_are_read_back(n: int)
    ensures
        signed_value(two_digits(n)) == Some(n),
        two_digits(n).len() >= 2,
{
    decimal_int_is_read_back(n);
    if 0 <= n < 10 {
        let d = crate::text::number::decimal(n as nat);
        decimal_is_read_back(n as nat);
        let s = seq!['0'] + d;
        assert(s.drop_last() =~= seq!['0']);
        assert(seq!['0'].drop_last() =~= Seq::<char>::empty());
        assert(digits_value(Seq::<char>::empty()) == 0);
        assert(digits_value(seq!['0']) == 0);
        assert(d.drop_last() =~= Seq::<char>::empty());
        assert(all_digits(s));
    } else if n >= 10 {
        decimal_is_read_back((n / 10) as nat);
    } else {
        decimal_is_read_back((-n) as nat);
    }
}

/// Where the text between the white space around a text begins and ends.
pub proof fn lemma_core(s: Seq<char>) -> (r: (int, int))
    requires
        !is_blank(s),
    ensures
        0 <= r.0 < r.1 <= s.len(),
        is_blank(s.take(r.0)),
        is_blank(s.skip(r.1)),
        !is_white(s[r.0]),
        !is_white(s[r.1 - 1]),
    decreases s.len(),
{
    if is_white(s[0]) {
        let rest = s.drop_first();
        let k = choose|k: int| 0 <= k < s.len() && !is_white(s[k]);
        assert(!is_white(rest[k - 1]));
        let (a, b) = lemma_core(rest);
        assert forall|i: int| 0 <= i < a + 1 implies is_white(#[trigger] s.take(a + 1)[i]) by {
            if i > 0 {
                assert(is_white(rest.take(a)[i - 1]));
            }
        }
        assert(s.skip(b + 1) =~= rest.skip(b));
        (a + 1, b + 1)
    } else if is_white(s.last()) {
        let rest = s.drop_last();
        assert(!is_white(rest[0]));
        let (a, b) = lemma_core(rest);
        assert(s.take(a) =~= rest.take(a));
        assert forall|i: int| 0 <= i < s.len() - b implies is_white(#[trigger] s.skip(b)[i]) by {
            if i < rest.len() - b {
                assert(is_white(rest.skip(b)[i]));
            }
        }
        (a, b)
    } else {
        (0, s.len() as int)
    }
}

/// Nothing is left of a text by trimming it exactly if it is white space alone.
pub proof fn blank_texts_vanish(s: Seq<char>)
    ensures
        trimmed(s).len() == 0 <==> is_blank(s),
{
    let none = Seq::<char>::empty();
    if is_blank(s) {
        assert(s =~= s + none + none);
        trimming_takes_white_space_only(s, none, none);
    } else {
        let (a, b) = lemma_core(s);
        let core = s.subrange(a, b);
        assert(s =~= s.take(a) + core + s.skip(b));
        trimming_takes_white_space_only(s.take(a), core, s.skip(b));
    }
}

/// The white space that is trimmed and that parts words: twenty-five characters.
pub proof fn white_space_is_of_twenty_five_characters(c: char)
    ensures
        is_white(c) <==> 9 <= c as int <= 13 || seq![
            32int,
            0x85,
            0xa0,
            0x1680,
            0x2028,
            0x2029,
            0x202f,
            0x205f,
            0x3000,
        ].contains(c as int) || 0x2000 <= c as int <= 0x200a,
{
    let l = seq![32int, 0x85, 0xa0, 0x1680, 0x2028, 0x2029, 0x202f, 0x205f, 0x3000];
    assert(l.len() == 9);
    assert(l[0] == 32 && l[1] == 0x85 && l[2] == 0xa0 && l[3] == 0x1680 && l[4] == 0x2028);
    assert(l[5] == 0x2029 && l[6] == 0x202f && l[7] == 0x205f && l[8] == 0x3000);
    if is_white(c) && !(9 <= c as int <= 13) && !(0x2000 <= c as int <= 0x200a) {
        assert(c as int == l[0] || c as int == l[1] || c as int == l[2] || c as int == l[3]
            || c as int == l[4] || c as int == l[5] || c as int == l[6] || c as int == l[7]
            || c as int == l[8]);
    }
    if l.contains(c as int) {
        let i = choose|i: int| 0 <= i < l.len() && l[i] == c as int;
        assert(is_white(c));
    }
}

/// A text holds another one exactly if it is made of something, the other one, and something.
pub proof fn texts_hold_what_they_are_made_of(s: Seq<char>, p: Seq<char>)
    ensures
        has_text(s, p) <==> exists|a: Seq<char>, b: Seq<char>| s == #[trigger] (a + p + b),
        begins_with(s, p) <==> exists|b: Seq<char>| s == #[trigger] (p + b),
        ends_with(s, p) <==> exists|a: Seq<char>| s == #[trigger] (a + p),
{
    if has_text(s, p) {
        let i = choose|i: int| #[trigger] occurs_at(s, p, i);
        assert(s =~= s.take(i) + p + s.skip(i + p.len())) by {
            assert(s =~= s.take(i) + s.subrange(i, i + p.len()) + s.skip(i + p.len()));
        }
    }
    if exists|a: Seq<char>, b: Seq<char>| s == #[trigger] (a + p + b) {
        let (a, b) = choose|a: Seq<char>, b: Seq<char>| s == #[trigger] (a + p + b);
        assert(s.subrange(a.len() as int, a.len() as int + p.len()) =~= p);
        assert(occurs_at(s, p, a.len() as int));
    }
    if begins_with(s, p) {
        assert(s =~= p + s.skip(p.len() as int)) by {
            assert(s =~= s.subrange(0, p.len() as int) + s.skip(p.len() as int));
        }
    }
    if exists|b: Seq<char>| s == #[trigger] (p + b) {
        let b = choose|b: Seq<char>| s == #[trigger] (p + b);
        assert(s.subrange(0, p.len() as int) =~= p);
    }
    if ends_with(s, p) {
        let n = s.len() - p.len();
        assert(s =~= s.take(n) + p) by {
            assert(s =~= s.take(n) + s.subrange(n, s.len() as int));
        }
    }
    if exists|a: Seq<char>| s == #[trigger] (a + p) {
        let a = choose|a: Seq<char>| s == #[trigger] (a + p);
        assert(s.subrange(s.len() - p.len(), s.len() as int) =~= p);
    }
}

/// Nothing is joined to nothing, and one part to itself.
pub proof fn single_parts_stay_as_they_are(part: Seq<char>, sep: Seq<char>)
    ensures
        joined(Seq::empty(), sep).len() == 0,
        joined(seq![part], sep) == part,
{
}

/// A number is written without zeros in front of it, and one with two digits with a zero exactly if
/// it is below ten.
pub proof fn numbers_are_written_without_zeros(n: nat)
    ensures
        n > 0 ==> crate::text::number::decimal(n)[0] != '0',
        n == 0 ==> crate::text::number::decimal(n) == seq!['0'],
        n < 100 ==> two_digits(n as int).len() == 2,
        n >= 10 ==> two_digits(n as int) == crate::text::number::decimal(n),
    decreases n,
{
    if n >= 10 {
        numbers_are_written_without_zeros(n / 10);
        let front = crate::text::number::decimal(n / 10);
        decimal_is_read_back(n / 10);
        assert(crate::text::number::decimal(n)[0] == front[0]);
        if n < 100 {
            assert(front.len() == 1);
        }
    }
}

/// A number may have a sign in front of it; without digits there is none.
pub proof fn signs_stand_in_front(n: nat)
    ensures
        signed_value(seq!['-'] + crate::text::number::decimal(n)) == Some(-(n as int)),
        signed_value(seq!['+'] + crate::text::number::decimal(n)) == Some(n as int),
        unsigned_value(seq!['+'] + crate::text::number::decimal(n)) == Some(n as int),
        unsigned_value(seq!['-'] + crate::text::number::decimal(n)) is None,
        signed_value(Seq::empty()) is None,
        signed_value(seq!['-']) is None,
        unsigned_value(Seq::empty()) is None,
{
    let d = crate::text::number::decimal(n);
    decimal_is_read_back(n);
    let minus = seq!['-'] + d;
    let plus = seq!['+'] + d;
    assert(minus[0] == '-' && plus[0] == '+');
    assert(minus.skip(1) =~= d);
    assert(plus.skip(1) =~= d);
    assert(!all_digits(minus)) by {
        assert(!crate::text::number::is_digit(minus[0]));
    }
    assert(seq!['-'].skip(1).len() == 0);
}

/// Only digits, behind a sign or without one, are read as a number.
pub proof fn only_digits_are_numbers(s: Seq<char>, i: int)
    requires
        0 < i < s.len(),
        !('0' <= s[i] <= '9'),
    ensures
        signed_value(s) is None,
        unsigned_value(s) is None,
{
    let t = s.skip(1);
    assert(t[i - 1] == s[i]);
    assert(!crate::text::number::is_digit(t[i - 1]));
    assert(!crate::text::number::is_digit(s[i]));
    assert(!all_digits(t));
    assert(!all_digits(s));
}

} // verus!
