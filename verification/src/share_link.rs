//! Share links: which share they name, which code opens it, and what is stored of them.

use vstd::prelude::*;

#[allow(unused_imports)]
use crate::text::{
    before_any, begins_with, cat, cat3, contains, ends_with, first_of, free_of, has_suffix,
    has_text, join, joined, lemma_find_from, lemma_first_char, lemma_next_sep, lemma_next_sep_is,
    lemma_pieces_free, lemma_stop_from, list_view, occurs_at, once, option_view, pieces, same,
    split, split_once, splitting_undoes_joining, starts_with, stop_from, trim, trimmed, until,
};

verus! {

// ---------------------------------------------------------------------------
// The share
// ---------------------------------------------------------------------------

/// The share that a link names: what stands behind `/s/`, up to the query or the fragment.
pub open spec fn share_id_of(url: Seq<char>) -> Option<Seq<char>> {
    match once(url, "/s/"@) {
        Some((_, tail)) => {
            let id = trimmed(before_any(tail, "?#"@));
            if id.len() > 0 {
                Some(id)
            } else {
                None
            }
        },
        None => None,
    }
}

/// The share that a link names.
pub fn share_id(url: &str) -> (r: Option<String>)
    ensures
        option_view(r) == share_id_of(url@),
{
    match split_once(url, "/s/") {
        Some((_, tail)) => {
            let id = trim(until(tail.as_str(), "?#").as_str());
            if id.as_str().is_empty() {
                None
            } else {
                Some(id)
            }
        },
        None => None,
    }
}

// ---------------------------------------------------------------------------
// The host
// ---------------------------------------------------------------------------

/// A link without its scheme: what stands behind `://`, where that comes before the path, the query
/// and the fragment.
pub open spec fn without_scheme(url: Seq<char>) -> Seq<char> {
    match once(url, "://"@) {
        Some((head, tail)) => if before_any(head, "/?#"@) == head {
            tail
        } else {
            url
        },
        None => url,
    }
}

/// The host that a link names: what stands behind the scheme, up to the path, the query or the
/// fragment, without a user in front or a port behind.
pub open spec fn host_of(url: Seq<char>) -> Seq<char> {
    before_any(pieces(before_any(without_scheme(url), "/?#"@), '@').last(), ":"@)
}

/// Whether a host is `domain` or stands under it.
pub open spec fn within_domain(host: Seq<char>, domain: Seq<char>) -> bool {
    host == domain || ends_with(host, "."@ + domain)
}

/// Whether a link is a share link of the drive.
pub open spec fn is_share_link_of(url: Seq<char>) -> bool {
    &&& has_text(url, "/s/"@)
    &&& within_domain(host_of(url), "115.com"@) || within_domain(host_of(url), "115cdn.com"@)
}

/// Whether a host is `domain` or stands under it.
fn under(host: &str, domain: &str) -> (r: bool)
    ensures
        r == within_domain(host@, domain@),
{
    same(host, domain) || has_suffix(host, cat(".", domain).as_str())
}

/// Whether a link is a share link of the drive.
pub fn is_share_link(url: &str) -> (r: bool)
    ensures
        r == is_share_link_of(url@),
{
    let rest = match split_once(url, "://") {
        Some((head, tail)) => if same(until(head.as_str(), "/?#").as_str(), head.as_str()) {
            tail
        } else {
            url.to_string()
        },
        None => url.to_string(),
    };
    let authority = until(rest.as_str(), "/?#");
    let parts = split(authority.as_str(), '@');
    proof {
        lemma_pieces_free(authority@, '@', 0);
    }
    assert(list_view(parts@).len() == parts@.len());
    assert(list_view(parts@).last() == parts@[parts@.len() - 1]@);
    let host = until(parts[parts.len() - 1].as_str(), ":");
    contains(url, "/s/") && (under(host.as_str(), "115.com") || under(host.as_str(), "115cdn.com"))
}

// ---------------------------------------------------------------------------
// The code
// ---------------------------------------------------------------------------

/// The names under which a query gives the code.
pub open spec fn is_code_name(name: Seq<char>) -> bool {
    name == "password"@ || name == "pwd"@ || name == "pick_code"@ || name == "code"@
}

/// The code that a pair of a query gives.
pub open spec fn code_of_pair(pair: Seq<char>) -> Option<Seq<char>> {
    match once(pair, "="@) {
        Some((name, value)) => if is_code_name(name) && value.len() > 0 {
            Some(value)
        } else {
            None
        },
        None => None,
    }
}

/// The first code that the pairs of a query give, from the `i`th on.
pub open spec fn code_among(pairs: Seq<Seq<char>>, i: int) -> Option<Seq<char>>
    decreases pairs.len() - i,
{
    if i >= pairs.len() {
        None
    } else if code_of_pair(pairs[i]) is Some {
        code_of_pair(pairs[i])
    } else {
        code_among(pairs, i + 1)
    }
}

/// The pairs of a link's query, none if it has no query.
pub open spec fn query_pairs(url: Seq<char>) -> Seq<Seq<char>> {
    match once(url, "?"@) {
        Some((_, query)) => pieces(query, '&'),
        None => Seq::empty(),
    }
}

/// The code that a link gives in its query.
pub open spec fn code_in(url: Seq<char>) -> Option<Seq<char>> {
    code_among(query_pairs(url), 0)
}

/// The code that a pair of a query gives.
fn pair_code(pair: &str) -> (r: Option<String>)
    ensures
        option_view(r) == code_of_pair(pair@),
{
    match split_once(pair, "=") {
        Some((name, value)) => {
            let n = name.as_str();
            let known = same(n, "password") || same(n, "pwd") || same(n, "pick_code") || same(
                n,
                "code",
            );
            if known && !value.as_str().is_empty() {
                Some(value)
            } else {
                None
            }
        },
        None => None,
    }
}

/// The code that a link gives in its query.
pub fn pick_code_in(url: &str) -> (r: Option<String>)
    ensures
        option_view(r) == code_in(url@),
{
    match split_once(url, "?") {
        Some((_, query)) => {
            let pairs = split(query.as_str(), '&');
            let ghost all = list_view(pairs@);
            let mut i: usize = 0;
            while i < pairs.len()
                invariant
                    i <= pairs@.len(),
                    all == list_view(pairs@),
                    all == query_pairs(url@),
                    code_in(url@) == code_among(all, i as int),
                decreases pairs@.len() - i,
            {
                assert(all[i as int] == pairs@[i as int]@);
                let code = pair_code(pairs[i].as_str());
                if code.is_some() {
                    return code;
                }
                i = i + 1;
            }
            None
        },
        None => None,
    }
}

// ---------------------------------------------------------------------------
// What is stored
// ---------------------------------------------------------------------------

/// Whether a pair of a query is one for a code, empty or not.
pub open spec fn is_code_pair(pair: Seq<char>) -> bool {
    begins_with(pair, "password="@) || begins_with(pair, "pwd="@) || begins_with(
        pair,
        "pick_code="@,
    ) || begins_with(pair, "code="@)
}

/// The pairs that are not for a code.
pub open spec fn other_pairs(pairs: Seq<Seq<char>>) -> Seq<Seq<char>>
    decreases pairs.len(),
{
    if pairs.len() == 0 {
        Seq::empty()
    } else if is_code_pair(pairs.last()) {
        other_pairs(pairs.drop_last())
    } else {
        other_pairs(pairs.drop_last()).push(pairs.last())
    }
}

/// A link without the pairs of its query that are for a code. A query that loses all its pairs goes.
pub open spec fn without_code(url: Seq<char>) -> Seq<char> {
    match once(url, "?"@) {
        Some((base, query)) => {
            let kept = other_pairs(pieces(query, '&'));
            if kept.len() == 0 {
                base
            } else {
                base + "?"@ + joined(kept, "&"@)
            }
        },
        None => url,
    }
}

/// Whether a pair of a query is one for a code.
fn code_pair(pair: &str) -> (r: bool)
    ensures
        r == is_code_pair(pair@),
{
    starts_with(pair, "password=") || starts_with(pair, "pwd=") || starts_with(pair, "pick_code=")
        || starts_with(pair, "code=")
}

/// A link without the pairs of its query that are for a code.
pub fn clean_link(url: &str) -> (r: String)
    ensures
        r@ == without_code(url@),
{
    match split_once(url, "?") {
        Some((base, query)) => {
            let pairs = split(query.as_str(), '&');
            let ghost all = list_view(pairs@);
            let mut kept: Vec<String> = Vec::new();
            let mut i: usize = 0;
            assert(list_view(kept@) =~= other_pairs(all.take(0)));
            while i < pairs.len()
                invariant
                    i <= pairs@.len(),
                    all == list_view(pairs@),
                    list_view(kept@) == other_pairs(all.take(i as int)),
                decreases pairs@.len() - i,
            {
                assert(all.take(i + 1).drop_last() =~= all.take(i as int));
                assert(all.take(i + 1).last() == pairs@[i as int]@);
                if !code_pair(pairs[i].as_str()) {
                    let ghost before = kept@;
                    kept.push(pairs[i].clone());
                    assert(list_view(kept@) =~= list_view(before).push(pairs@[i as int]@));
                }
                i = i + 1;
            }
            assert(all.take(i as int) =~= all);
            assert(list_view(kept@).len() == kept@.len());
            if kept.len() == 0 {
                base
            } else {
                cat3(base.as_str(), "?", join(&kept, "&").as_str())
            }
        },
        None => url.to_string(),
    }
}

// ---------------------------------------------------------------------------
// Laws
// ---------------------------------------------------------------------------

/// What is kept is not for a code, and was there.
proof fn lemma_other_pairs(pairs: Seq<Seq<char>>)
    ensures
        forall|i: int|
            0 <= i < other_pairs(pairs).len() ==> !is_code_pair(#[trigger] other_pairs(pairs)[i])
                && pairs.contains(other_pairs(pairs)[i]),
    decreases pairs.len(),
{
    if pairs.len() > 0 {
        lemma_other_pairs(pairs.drop_last());
        let rest = other_pairs(pairs.drop_last());
        assert forall|i: int| 0 <= i < other_pairs(pairs).len() implies !is_code_pair(
            #[trigger] other_pairs(pairs)[i],
        ) && pairs.contains(other_pairs(pairs)[i]) by {
            if i < rest.len() {
                assert(other_pairs(pairs)[i] == rest[i]);
                let k = choose|k: int| 0 <= k < pairs.drop_last().len() && pairs.drop_last()[k] == rest[i];
                assert(pairs[k] == rest[i]);
            } else {
                assert(pairs[pairs.len() - 1] == pairs.last());
            }
        }
    }
}

/// Where no pair is for a code, all are kept.
proof fn lemma_all_kept(pairs: Seq<Seq<char>>)
    requires
        forall|i: int| 0 <= i < pairs.len() ==> !is_code_pair(#[trigger] pairs[i]),
    ensures
        other_pairs(pairs) == pairs,
    decreases pairs.len(),
{
    if pairs.len() > 0 {
        assert forall|i: int| 0 <= i < pairs.drop_last().len() implies !is_code_pair(
            #[trigger] pairs.drop_last()[i],
        ) by {
            assert(pairs.drop_last()[i] == pairs[i]);
        }
        lemma_all_kept(pairs.drop_last());
        assert(!is_code_pair(pairs[pairs.len() - 1]));
        assert(pairs.drop_last().push(pairs.last()) =~= pairs);
    }
}

/// How a link without codes is split at its query: as before, with the pairs that were kept.
proof fn lemma_split_again(url: Seq<char>)
    ensures
        match once(url, "?"@) {
            Some((base, query)) => if other_pairs(pieces(query, '&')).len() == 0 {
                once(without_code(url), "?"@) is None
            } else {
                &&& once(without_code(url), "?"@) == Some(
                    (base, joined(other_pairs(pieces(query, '&')), "&"@)),
                )
                &&& query_pairs(without_code(url)) == other_pairs(pieces(query, '&'))
            },
            None => without_code(url) == url,
        },
{
    reveal_strlit("?");
    reveal_strlit("&");
    assert("?"@ =~= seq!['?']);
    assert("&"@ =~= seq!['&']);
    lemma_first_char(url, '?');
    lemma_next_sep(url, '?', 0);
    match once(url, "?"@) {
        Some((base, query)) => {
            let kept = other_pairs(pieces(query, '&'));
            let clean = without_code(url);
            let n = base.len() as int;
            assert(base == url.take(n));
            assert forall|j: int| 0 <= j < n implies base[j] != '?' by {
                assert(base[j] == url[j]);
            }
            if kept.len() == 0 {
                lemma_next_sep_is(base, '?', 0, n);
                lemma_first_char(base, '?');
            } else {
                let rest = joined(kept, "&"@);
                assert(clean == base + "?"@ + rest);
                assert forall|j: int| 0 <= j < n implies clean[j] != '?' by {
                    assert(clean[j] == base[j]);
                }
                assert(clean[n] == '?');
                lemma_next_sep_is(clean, '?', 0, n);
                lemma_first_char(clean, '?');
                assert(clean.take(n) =~= base);
                assert(clean.skip(n + 1) =~= rest);
                lemma_other_pairs(pieces(query, '&'));
                lemma_pieces_free(query, '&', 0);
                assert forall|i: int| 0 <= i < kept.len() implies free_of(
                    #[trigger] kept[i],
                    '&',
                ) by {
                    assert(pieces(query, '&').contains(kept[i]));
                }
                splitting_undoes_joining(kept, '&');
            }
        },
        None => {},
    }
}

/// A pair that gives a code is one for a code.
proof fn lemma_code_pair(pair: Seq<char>)
    ensures
        code_of_pair(pair) is Some ==> is_code_pair(pair),
{
    if code_of_pair(pair) is Some {
        let (name, value) = once(pair, "="@)->0;
        lemma_find_from(pair, "="@, 0);
        let i = first_of(pair, "="@)->0;
        reveal_strlit("=");
        reveal_strlit("password");
        reveal_strlit("password=");
        reveal_strlit("pwd");
        reveal_strlit("pwd=");
        reveal_strlit("pick_code");
        reveal_strlit("pick_code=");
        reveal_strlit("code");
        reveal_strlit("code=");
        assert(occurs_at(pair, "="@, i));
        assert(pair[i] == pair.subrange(i, i + 1)[0]);
        assert(name == pair.take(i));
        let head = pair.subrange(0, i + 1);
        assert(head =~= name.push('='));
        if name == "password"@ {
            assert(head =~= "password="@);
        } else if name == "pwd"@ {
            assert(head =~= "pwd="@);
        } else if name == "pick_code"@ {
            assert(head =~= "pick_code="@);
        } else {
            assert(head =~= "code="@);
        }
    }
}

/// Where no pair is for a code, none gives one.
proof fn lemma_no_code(pairs: Seq<Seq<char>>, i: int)
    requires
        0 <= i,
        forall|k: int| 0 <= k < pairs.len() ==> !is_code_pair(#[trigger] pairs[k]),
    ensures
        code_among(pairs, i) is None,
    decreases pairs.len() - i,
{
    if i < pairs.len() {
        lemma_code_pair(pairs[i]);
        lemma_no_code(pairs, i + 1);
    }
}

/// What is stored of a link tells no code: none of the pairs of its query is for one, and no code
/// is found in it.
pub proof fn stored_link_tells_no_code(url: Seq<char>)
    ensures
        forall|i: int|
            0 <= i < query_pairs(without_code(url)).len() ==> !is_code_pair(
                #[trigger] query_pairs(without_code(url))[i],
            ),
        code_in(without_code(url)) is None,
{
    lemma_split_again(url);
    match once(url, "?"@) {
        Some((base, query)) => {
            lemma_other_pairs(pieces(query, '&'));
            lemma_no_code(query_pairs(without_code(url)), 0);
        },
        None => {},
    }
}

/// Cleaning a link a second time changes nothing: links that differ in their code alone are stored
/// alike, and the stored link stands for itself.
pub proof fn cleaning_is_idempotent(url: Seq<char>)
    ensures
        without_code(without_code(url)) == without_code(url),
{
    lemma_split_again(url);
    match once(url, "?"@) {
        Some((base, query)) => {
            lemma_other_pairs(pieces(query, '&'));
            let kept = other_pairs(pieces(query, '&'));
            if kept.len() > 0 {
                lemma_all_kept(kept);
            }
        },
        None => {},
    }
}

/// A link that names its share before its query names the same share after it was cleaned.
pub proof fn cleaning_keeps_the_share(url: Seq<char>)
    requires
        match once(url, "?"@) {
            Some((base, _)) => has_text(base, "/s/"@),
            None => true,
        },
    ensures
        share_id_of(without_code(url)) == share_id_of(url),
{
    reveal_strlit("?");
    reveal_strlit("?#");
    reveal_strlit("/s/");
    assert("?"@ =~= seq!['?']);
    match once(url, "?"@) {
        Some((base, query)) => {
            lemma_first_char(url, '?');
            lemma_next_sep(url, '?', 0);
            let clean = without_code(url);
            let n = base.len() as int;
            assert(url[n] == '?');
            assert forall|j: int| 0 <= j < n implies base[j] == url[j] && base[j] == clean[j] by {}
            lemma_find_from(base, "/s/"@, 0);
            lemma_find_from(url, "/s/"@, 0);
            lemma_find_from(clean, "/s/"@, 0);
            let i = first_of(base, "/s/"@)->0;
            lemma_same_start(base, url, i);
            lemma_same_start(base, clean, i);
            lemma_tail(base, url, i + 3, "?#"@, 0);
            lemma_tail(base, clean, i + 3, "?#"@, 0);
        },
        None => {},
    }
}

/// Where a text begins with `base`, `/s/` first occurs where it first occurs in `base`.
proof fn lemma_same_start(base: Seq<char>, s: Seq<char>, i: int)
    requires
        base.len() <= s.len(),
        forall|j: int| 0 <= j < base.len() ==> base[j] == s[j],
        first_of(base, "/s/"@) == Some(i),
    ensures
        first_of(s, "/s/"@) == Some(i),
        0 <= i <= base.len() - 3,
{
    reveal_strlit("/s/");
    lemma_find_from(base, "/s/"@, 0);
    lemma_find_from(s, "/s/"@, 0);
    assert(s.subrange(i, i + 3) =~= base.subrange(i, i + 3));
    assert(occurs_at(s, "/s/"@, i));
    let k = first_of(s, "/s/"@)->0;
    if k < i {
        assert(base.subrange(k, k + 3) =~= s.subrange(k, k + 3));
        assert(occurs_at(base, "/s/"@, k));
    }
}

/// What stands from `from` on, up to the first of some characters that a query stops at, is the
/// same in `base` and in a text that is `base` alone or has a query behind it.
proof fn lemma_tail(base: Seq<char>, s: Seq<char>, from: int, stops: Seq<char>, q: int)
    requires
        0 <= from <= base.len() <= s.len(),
        forall|j: int| 0 <= j < base.len() ==> base[j] == s[j],
        base.len() < s.len() ==> s[base.len() as int] == '?',
        0 <= q < stops.len(),
        stops[q] == '?',
    ensures
        before_any(s.skip(from), stops) == before_any(base.skip(from), stops),
{
    let a = s.skip(from);
    let b = base.skip(from);
    lemma_stop_from(a, stops, 0);
    lemma_stop_from(b, stops, 0);
    let x = stop_from(a, stops, 0);
    let y = stop_from(b, stops, 0);
    assert(b.len() < a.len() ==> a[b.len() as int] == '?');
    if x < y {
        assert(a[x] == b[x]);
    }
    if y < x {
        if y < b.len() {
            assert(a[y] == b[y]);
        } else {
            assert(a[y] == '?');
        }
    }
    assert(a.take(x) =~= b.take(y));
}

/// The host of a text that is `base` alone or has a query behind it is the one of `base`.
proof fn lemma_host(base: Seq<char>, s: Seq<char>)
    requires
        free_of(base, '?'),
        base.len() <= s.len(),
        forall|j: int| 0 <= j < base.len() ==> base[j] == s[j],
        base.len() < s.len() ==> s[base.len() as int] == '?',
    ensures
        host_of(s) == host_of(base),
{
    let n = base.len() as int;
    reveal_strlit("://");
    reveal_strlit("/?#");
    assert("/?#"@[1] == '?');
    lemma_find_from(base, "://"@, 0);
    lemma_find_from(s, "://"@, 0);
    lemma_tail(base, s, 0, "/?#"@, 1);
    assert(base.skip(0) =~= base);
    assert(s.skip(0) =~= s);
    match first_of(s, "://"@) {
        Some(k) => {
            lemma_stop_from(s.take(k), "/?#"@, 0);
            assert(s.subrange(k, k + 3) == "://"@);
            assert(s.subrange(k, k + 3)[0] == s[k]);
            assert(s.subrange(k, k + 3)[1] == s[k + 1]);
            assert(s.subrange(k, k + 3)[2] == s[k + 2]);
            if k < n {
                assert(k + 3 <= n);
                assert(base.subrange(k, k + 3) =~= s.subrange(k, k + 3));
                assert(occurs_at(base, "://"@, k));
                let j = first_of(base, "://"@)->0;
                if j < k {
                    assert(s.subrange(j, j + 3) =~= base.subrange(j, j + 3));
                    assert(occurs_at(s, "://"@, j));
                }
                assert(base.take(k) =~= s.take(k));
                lemma_tail(base, s, k + 3, "/?#"@, 1);
            } else {
                if first_of(base, "://"@) is Some {
                    let j = first_of(base, "://"@)->0;
                    assert(s.subrange(j, j + 3) =~= base.subrange(j, j + 3));
                    assert(occurs_at(s, "://"@, j));
                }
                assert(s.take(k)[n] == '?');
                assert("/?#"@.contains(s.take(k)[n]));
                assert(before_any(s.take(k), "/?#"@) != s.take(k));
            }
        },
        None => {
            if first_of(base, "://"@) is Some {
                let j = first_of(base, "://"@)->0;
                assert(s.subrange(j, j + 3) =~= base.subrange(j, j + 3));
                assert(occurs_at(s, "://"@, j));
            }
        },
    }
}

/// A link names the same host after it was cleaned.
pub proof fn cleaning_keeps_the_host(url: Seq<char>)
    ensures
        host_of(without_code(url)) == host_of(url),
{
    reveal_strlit("?");
    assert("?"@ =~= seq!['?']);
    match once(url, "?"@) {
        Some((base, query)) => {
            lemma_first_char(url, '?');
            lemma_next_sep(url, '?', 0);
            let clean = without_code(url);
            let n = base.len() as int;
            assert(url[n] == '?');
            assert forall|j: int| 0 <= j < n implies base[j] == url[j] && base[j] == clean[j]
                && base[j] != '?' by {}
            lemma_host(base, url);
            lemma_host(base, clean);
        },
        None => {},
    }
}

/// A link that has its share before its query is a share link of the drive if and only if it is one
/// after it was cleaned: links that are stored alike are accepted alike.
pub proof fn cleaning_keeps_share_links(url: Seq<char>)
    requires
        match once(url, "?"@) {
            Some((base, _)) => has_text(base, "/s/"@),
            None => true,
        },
    ensures
        is_share_link_of(without_code(url)) == is_share_link_of(url),
{
    cleaning_keeps_the_host(url);
    reveal_strlit("?");
    assert("?"@ =~= seq!['?']);
    match once(url, "?"@) {
        Some((base, query)) => {
            lemma_first_char(url, '?');
            lemma_next_sep(url, '?', 0);
            let clean = without_code(url);
            assert forall|j: int| 0 <= j < base.len() implies base[j] == url[j] && base[j]
                == clean[j] by {}
            lemma_find_from(base, "/s/"@, 0);
            lemma_find_from(url, "/s/"@, 0);
            lemma_find_from(clean, "/s/"@, 0);
            let i = first_of(base, "/s/"@)->0;
            lemma_same_start(base, url, i);
            lemma_same_start(base, clean, i);
            assert(occurs_at(url, "/s/"@, i));
            assert(occurs_at(clean, "/s/"@, i));
        },
        None => {},
    }
}

/// The code in the query of a link is found, and what is stored is the link without the query.
pub proof fn code_is_found_and_not_stored(url: Seq<char>, code: Seq<char>)
    requires
        free_of(url, '?'),
        free_of(code, '&'),
        code.len() > 0,
    ensures
        code_in(url + "?password="@ + code) == Some(code),
        without_code(url + "?password="@ + code) == url,
{
    reveal_strlit("?");
    reveal_strlit("=");
    reveal_strlit("password");
    reveal_strlit("password=");
    reveal_strlit("?password=");
    assert("?"@ =~= seq!['?']);
    assert("="@ =~= seq!['=']);
    let whole = url + "?password="@ + code;
    let n = url.len() as int;
    let query = "password="@ + code;
    assert(whole[n] == "?password="@[0]);
    assert forall|j: int| 0 <= j < n implies whole[j] != '?' by {
        assert(whole[j] == url[j]);
    }
    lemma_next_sep_is(whole, '?', 0, n);
    lemma_first_char(whole, '?');
    assert(whole.take(n) =~= url);
    assert(whole.skip(n + 1) =~= query) by {
        assert forall|j: int| 0 <= j < query.len() implies whole.skip(n + 1)[j] == query[j] by {
            if j < 9 {
                assert(whole[n + 1 + j] == "?password="@[1 + j]);
                assert("?password="@[1 + j] == "password="@[j]);
            } else {
                assert(whole[n + 1 + j] == code[j - 9]);
            }
        }
    }
    assert forall|j: int| 0 <= j < query.len() implies query[j] != '&' by {
        if j < 9 {
            assert(query[j] == "password="@[j]);
        } else {
            assert(query[j] == code[j - 9]);
        }
    }
    lemma_next_sep_is(query, '&', 0, query.len() as int);
    assert(query.subrange(0, query.len() as int) =~= query);
    assert(pieces(query, '&') == seq![query]);
    assert(query.subrange(0, 9) =~= "password="@);
    assert(is_code_pair(query));
    assert(seq![query].drop_last() =~= Seq::empty());
    assert(seq![query].last() == query);
    assert(other_pairs(Seq::empty()) =~= Seq::empty());
    assert(other_pairs(seq![query]) =~= Seq::empty());
    assert forall|j: int| 0 <= j < 8 implies query[j] != '=' by {
        assert(query[j] == "password="@[j]);
    }
    assert(query[8] == "password="@[8]);
    lemma_next_sep_is(query, '=', 0, 8);
    lemma_first_char(query, '=');
    assert(query.take(8) =~= "password"@);
    assert(query.skip(9) =~= code);
    assert(code_of_pair(query) == Some(code));
}

} // verus!
