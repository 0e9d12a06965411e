//! Laws of links to shares.

use vstd::prelude::*;

#[allow(unused_imports)]
use crate::laws::names::lemma_last_piece;
#[allow(unused_imports)]
use crate::laws::texts::{is_blank, is_tight, trimming_takes_white_space_only};
#[allow(unused_imports)]
use crate::share_link::{
    code_among, code_in, code_of_pair, host_of, is_code_name, is_code_pair, is_share_link_of,
    other_pairs, query_pairs, share_id_of, within_domain, without_code, without_scheme,
};
#[allow(unused_imports)]
use crate::text::{
    before_any, begins_with, ends_with, free_of, has_text, joined, lemma_find_from,
    lemma_first_char, lemma_next_sep_is, lemma_stop_from, occurs_at, once, pieces,
    splitting_undoes_joining, stop_from,
};

verus! {

/// What stands in front of a mark that is there for the first time, and what behind it.
proof fn lemma_once(front: Seq<char>, mark: Seq<char>, rest: Seq<char>)
    requires
        mark.len() > 0,
        !has_text(front + mark.drop_last(), mark),
    ensures
        once(front + mark + rest, mark) == Some((front, rest)),
{
    let s = front + mark + rest;
    let n = front.len() as int;
    lemma_find_from(s, mark, 0);
    assert(s.subrange(n, n + mark.len()) =~= mark);
    assert(occurs_at(s, mark, n));
    assert forall|j: int| 0 <= j < n implies !#[trigger] occurs_at(s, mark, j) by {
        if occurs_at(s, mark, j) {
            let t = front + mark.drop_last();
            assert(j + mark.len() <= t.len());
            assert(t.subrange(j, j + mark.len()) =~= s.subrange(j, j + mark.len()));
            assert(occurs_at(t, mark, j));
        }
    }
    assert(s.take(n) =~= front);
    assert(s.skip(n + mark.len()) =~= rest);
}

/// What stands in front of the first one of some characters.
proof fn lemma_before_any(front: Seq<char>, rest: Seq<char>, stops: Seq<char>)
    requires
        forall|i: int| 0 <= i < front.len() ==> !stops.contains(#[trigger] front[i]),
        rest.len() == 0 || stops.contains(rest[0]),
    ensures
        before_any(front + rest, stops) == front,
{
    let s = front + rest;
    lemma_stop_from(s, stops, 0);
    let k = stop_from(s, stops, 0);
    if k < front.len() {
        assert(s[k] == front[k]);
    }
    if k > front.len() {
        assert(s[front.len() as int] == rest[0]);
    }
    assert(s.take(front.len() as int) =~= front);
}

/// Whether a text holds none of the characters that end a part of a link.
pub open spec fn is_part(s: Seq<char>) -> bool {
    free_of(s, '/') && free_of(s, '?') && free_of(s, '#')
}

/// The identifier of a share is what stands behind the first `/s/` of its link, up to the query or
/// the fragment, without the white space around it. Where nothing else stands there, and where there
/// is no `/s/`, there is no identifier.
pub proof fn shares_are_told_by_their_links(
    front: Seq<char>,
    a: Seq<char>,
    id: Seq<char>,
    b: Seq<char>,
    rest: Seq<char>,
)
    requires
        !has_text(front + seq!['/', 's'], "/s/"@),
        is_blank(a),
        is_blank(b),
        is_tight(id),
        free_of(id, '?'),
        free_of(id, '#'),
        rest.len() == 0 || rest[0] == '?' || rest[0] == '#',
    ensures
        share_id_of(front + "/s/"@ + (a + id + b + rest)) == if id.len() > 0 {
            Some(id)
        } else {
            None
        },
        forall|url: Seq<char>|
            !has_text(url, "/s/"@) ==> #[trigger] share_id_of(url) is None,
{
    reveal_strlit("/s/");
    reveal_strlit("?#");
    assert("/s/"@.drop_last() =~= seq!['/', 's']);
    lemma_once(front, "/s/"@, a + id + b + rest);
    let stops = "?#"@;
    assert(stops[0] == '?' && stops[1] == '#');
    let told = a + id + b;
    assert forall|i: int| 0 <= i < told.len() implies !stops.contains(#[trigger] told[i]) by {
        if i < a.len() {
            assert(told[i] == a[i]);
        } else if i < a.len() + id.len() {
            assert(told[i] == id[i - a.len()]);
        } else {
            assert(told[i] == b[i - a.len() - id.len()]);
        }
    }
    if rest.len() > 0 {
        assert(stops.contains(rest[0]));
    }
    lemma_before_any(told, rest, stops);
    trimming_takes_white_space_only(a, id, b);
    assert forall|url: Seq<char>| !has_text(url, "/s/"@) implies #[trigger] share_id_of(
        url,
    ) is None by {
        lemma_find_from(url, "/s/"@, 0);
    }
}

/// The host of a link is what stands behind the scheme and behind whoever is named before an `@`,
/// up to the port, the path, the query or the fragment.
pub proof fn hosts_are_told_by_their_links(
    scheme: Seq<char>,
    user: Seq<char>,
    host: Seq<char>,
    port: Seq<char>,
    rest: Seq<char>,
)
    requires
        is_part(scheme),
        free_of(scheme, ':'),
        is_part(user),
        user.len() == 0 || user.last() == '@',
        is_part(host),
        free_of(host, '@'),
        free_of(host, ':'),
        is_part(port),
        free_of(port, '@'),
        port.len() == 0 || port[0] == ':',
        rest.len() == 0 || rest[0] == '/' || rest[0] == '?' || rest[0] == '#',
    ensures
        host_of(scheme + "://"@ + (user + host + port + rest)) == host,
{
    let mark = "://"@;
    reveal_strlit("://");
    reveal_strlit("/?#");
    reveal_strlit(":");
    let t = scheme + mark.drop_last();
    assert forall|i: int| !#[trigger] occurs_at(t, mark, i) by {
        if occurs_at(t, mark, i) {
            assert(i < scheme.len());
            assert(t.subrange(i, i + 3)[0] == mark[0]);
            assert(t[i] == scheme[i]);
        }
    }
    let tail = user + host + port + rest;
    lemma_once(scheme, mark, tail);
    let stops = "/?#"@;
    assert(stops[0] == '/' && stops[1] == '?' && stops[2] == '#');
    assert(scheme + Seq::<char>::empty() =~= scheme);
    assert forall|i: int| 0 <= i < scheme.len() implies !stops.contains(#[trigger] scheme[i]) by {}
    lemma_before_any(scheme, Seq::empty(), stops);
    assert(without_scheme(scheme + mark + tail) == tail);
    let authority = user + host + port;
    assert forall|i: int| 0 <= i < authority.len() implies !stops.contains(
        #[trigger] authority[i],
    ) by {
        if i < user.len() {
            assert(authority[i] == user[i]);
        } else if i < user.len() + host.len() {
            assert(authority[i] == host[i - user.len()]);
        } else {
            assert(authority[i] == port[i - user.len() - host.len()]);
        }
    }
    lemma_before_any(authority, rest, stops);
    let place = host + port;
    assert forall|i: int| 0 <= i < place.len() implies place[i] != '@' by {
        if i < host.len() {
            assert(place[i] == host[i]);
        } else {
            assert(place[i] == port[i - host.len()]);
        }
    }
    if user.len() == 0 {
        assert(authority =~= place);
        lemma_next_sep_is(place, '@', 0, place.len() as int);
        assert(place.subrange(0, place.len() as int) =~= place);
        assert(pieces(authority, '@') == seq![place]);
    } else {
        let at = user.len() - 1;
        assert(authority[at] == '@');
        assert forall|j: int| at < j < authority.len() implies authority[j] != '@' by {
            assert(authority[j] == place[j - user.len()]);
        }
        lemma_last_piece(authority, '@', 0, at);
        assert(authority.skip(at + 1) =~= place);
    }
    assert(pieces(authority, '@').last() == place);
    let colon = ":"@;
    assert(colon[0] == ':');
    if port.len() > 0 {
        assert(colon.contains(port[0]));
    }
    lemma_before_any(host, port, colon);
}

/// A link is one to a share of the drive exactly if it holds `/s/` and its host is one of the two
/// domains, or stands within one of them: behind a full stop.
pub proof fn share_links_lead_to_the_drive(url: Seq<char>)
    ensures
        is_share_link_of(url) <==> has_text(url, "/s/"@) && (host_of(url) == "115.com"@ || host_of(
            url,
        ) == "115cdn.com"@ || (exists|sub: Seq<char>|
            host_of(url) == #[trigger] (sub + seq!['.']) + "115.com"@) || exists|sub: Seq<char>|
            host_of(url) == #[trigger] (sub + seq!['.']) + "115cdn.com"@),
{
    lemma_within(host_of(url), "115.com"@);
    lemma_within(host_of(url), "115cdn.com"@);
}

/// A host stands within a domain if it is made of something, a full stop and the domain.
proof fn lemma_within(host: Seq<char>, domain: Seq<char>)
    ensures
        within_domain(host, domain) <==> host == domain || exists|sub: Seq<char>|
            host == #[trigger] (sub + seq!['.']) + domain,
{
    reveal_strlit(".");
    assert("."@ =~= seq!['.']);
    let tail = "."@ + domain;
    if ends_with(host, tail) {
        let sub = host.take(host.len() - tail.len());
        assert(host =~= (sub + seq!['.']) + domain) by {
            let at = host.len() - tail.len();
            assert(host =~= host.take(at) + host.subrange(at, host.len() as int));
            assert((sub + seq!['.']) + domain =~= sub + tail);
        }
    }
    if exists|sub: Seq<char>| host == #[trigger] (sub + seq!['.']) + domain {
        let sub = choose|sub: Seq<char>| host == #[trigger] (sub + seq!['.']) + domain;
        assert(host.subrange(host.len() - tail.len(), host.len() as int) =~= tail);
        assert(ends_with(host, tail));
    }
}

/// The names under which a link tells its pick code.
pub open spec fn code_names() -> Seq<Seq<char>> {
    seq!["password"@, "pwd"@, "pick_code"@, "code"@]
}

/// A name and what stands behind it are one of a kind exactly if the name is.
proof fn lemma_key(name: Seq<char>, value: Seq<char>, key: Seq<char>)
    requires
        free_of(name, '='),
        free_of(key, '='),
    ensures
        begins_with(name + seq!['='] + value, key + seq!['=']) <==> name == key,
{
    let pair = name + seq!['='] + value;
    let mark = key + seq!['='];
    if begins_with(pair, mark) {
        assert(pair.subrange(0, mark.len() as int) == mark);
        assert(pair[key.len() as int] == mark[key.len() as int]);
        assert(pair[name.len() as int] == '=');
        if key.len() < name.len() {
            assert(pair[key.len() as int] == name[key.len() as int]);
        }
        if name.len() < key.len() {
            assert(pair.subrange(0, mark.len() as int)[name.len() as int]
                == mark[name.len() as int]);
            assert(mark[name.len() as int] == key[name.len() as int]);
        }
        assert forall|i: int| 0 <= i < key.len() implies name[i] == key[i] by {
            assert(pair.subrange(0, mark.len() as int)[i] == mark[i]);
        }
        assert(name =~= key);
    }
    if name == key {
        assert(pair.subrange(0, mark.len() as int) =~= mark);
    }
}

/// The names of codes, told one by one.
proof fn lemma_code_names(name: Seq<char>)
    ensures
        is_code_name(name) <==> code_names().contains(name),
        free_of("password"@, '=') && free_of("pwd"@, '=') && free_of("pick_code"@, '=') && free_of(
            "code"@,
            '=',
        ),
        "password="@ == "password"@ + seq!['='],
        "pwd="@ == "pwd"@ + seq!['='],
        "pick_code="@ == "pick_code"@ + seq!['='],
        "code="@ == "code"@ + seq!['='],
{
    let l = code_names();
    assert(l[0] == "password"@ && l[1] == "pwd"@ && l[2] == "pick_code"@ && l[3] == "code"@);
    reveal_strlit("password");
    reveal_strlit("pwd");
    reveal_strlit("pick_code");
    reveal_strlit("code");
    reveal_strlit("password=");
    reveal_strlit("pwd=");
    reveal_strlit("pick_code=");
    reveal_strlit("code=");
    assert("password="@ =~= "password"@ + seq!['=']);
    assert("pwd="@ =~= "pwd"@ + seq!['=']);
    assert("pick_code="@ =~= "pick_code"@ + seq!['=']);
    assert("code="@ =~= "code"@ + seq!['=']);
}

/// One part of a query. It tells a code exactly if it is called by one of the four names and
/// something stands behind the first `=`, which then is the code; it is left out of a stored link
/// exactly if it is called by one of the four names.
pub proof fn codes_have_four_names(name: Seq<char>, value: Seq<char>)
    requires
        free_of(name, '='),
    ensures
        code_of_pair(name + seq!['='] + value) == if seq![
            "password"@,
            "pwd"@,
            "pick_code"@,
            "code"@,
        ].contains(name) && value.len() > 0 {
            Some(value)
        } else {
            None
        },
        is_code_pair(name + seq!['='] + value) <==> seq![
            "password"@,
            "pwd"@,
            "pick_code"@,
            "code"@,
        ].contains(name),
        code_of_pair(name) is None,
        !is_code_pair(name),
{
    let pair = name + seq!['='] + value;
    reveal_strlit("=");
    assert("="@ =~= seq!['=']);
    lemma_code_names(name);
    assert(pair[name.len() as int] == '=');
    lemma_next_sep_is(pair, '=', 0, name.len() as int);
    lemma_first_char(pair, '=');
    assert(pair.take(name.len() as int) =~= name);
    assert(pair.skip(name.len() as int + 1) =~= value);
    lemma_key(name, value, "password"@);
    lemma_key(name, value, "pwd"@);
    lemma_key(name, value, "pick_code"@);
    lemma_key(name, value, "code"@);
    lemma_next_sep_is(name, '=', 0, name.len() as int);
    lemma_first_char(name, '=');
    lemma_no_key(name, "password"@);
    lemma_no_key(name, "pwd"@);
    lemma_no_key(name, "pick_code"@);
    lemma_no_key(name, "code"@);
}

/// What holds no `=` does not begin with what ends in one.
proof fn lemma_no_key(name: Seq<char>, key: Seq<char>)
    requires
        free_of(name, '='),
    ensures
        !begins_with(name, key + seq!['=']),
{
    let mark = key + seq!['='];
    if begins_with(name, mark) {
        assert(name.subrange(0, mark.len() as int)[key.len() as int] == mark[key.len() as int]);
        assert(name[key.len() as int] == '=');
    }
}

/// The code among two lists is that of the first one, if it tells one.
proof fn lemma_code_among(a: Seq<Seq<char>>, b: Seq<Seq<char>>, i: int)
    requires
        0 <= i <= a.len() + b.len(),
    ensures
        i <= a.len() ==> code_among(a + b, i) == if code_among(a, i) is Some {
            code_among(a, i)
        } else {
            code_among(b, 0)
        },
        i >= a.len() ==> code_among(a + b, i) == code_among(b, i - a.len()),
    decreases a.len() + b.len() - i,
{
    if i < a.len() + b.len() {
        if i < a.len() {
            assert((a + b)[i] == a[i]);
        } else {
            assert((a + b)[i] == b[i - a.len()]);
        }
        lemma_code_among(a, b, i + 1);
    }
}

/// What a link is stored without, of two lists.
proof fn lemma_other_pairs(a: Seq<Seq<char>>, b: Seq<Seq<char>>)
    ensures
        other_pairs(a + b) == other_pairs(a) + other_pairs(b),
    decreases b.len(),
{
    if b.len() == 0 {
        assert(a + b =~= a);
        assert(other_pairs(a) + other_pairs(b) =~= other_pairs(a));
    } else {
        lemma_other_pairs(a, b.drop_last());
        assert((a + b).drop_last() =~= a + b.drop_last());
        assert((a + b).last() == b.last());
        assert(other_pairs(a + b) =~= other_pairs(a) + other_pairs(b));
    }
}

/// A link is made of what stands in front of its first `?` and of the parts of its query, between
/// `&`. The code is that of the first part that tells one. What is stored is the link without the
/// parts that are called as codes are: the other parts stay, in their order, and where none stays
/// the `?` does not either.
pub proof fn queries_are_made_of_parts(base: Seq<char>, a: Seq<Seq<char>>, b: Seq<Seq<char>>)
    requires
        free_of(base, '?'),
        a.len() + b.len() > 0,
        forall|i: int| 0 <= i < a.len() ==> free_of(#[trigger] a[i], '&'),
        forall|i: int| 0 <= i < b.len() ==> free_of(#[trigger] b[i], '&'),
    ensures
        ({
            let url = base + seq!['?'] + joined(a + b, seq!['&']);
            &&& query_pairs(url) == a + b
            &&& code_in(url) == if code_among(a, 0) is Some {
                code_among(a, 0)
            } else {
                code_among(b, 0)
            }
            &&& without_code(url) == if other_pairs(a).len() + other_pairs(b).len() == 0 {
                base
            } else {
                base + seq!['?'] + joined(other_pairs(a) + other_pairs(b), seq!['&'])
            }
        }),
        a.len() == 1 ==> code_among(a, 0) == code_of_pair(a[0]),
        a.len() == 0 ==> code_among(a, 0) is None,
        a.len() == 1 ==> other_pairs(a) == if is_code_pair(a[0]) {
            Seq::empty()
        } else {
            a
        },
        code_in(base) is None,
        without_code(base) == base,
{
    let all = a + b;
    let url = base + seq!['?'] + joined(all, seq!['&']);
    reveal_strlit("?");
    reveal_strlit("&");
    assert("?"@ =~= seq!['?']);
    assert("&"@ =~= seq!['&']);
    assert(url[base.len() as int] == '?');
    lemma_next_sep_is(url, '?', 0, base.len() as int);
    lemma_first_char(url, '?');
    assert(url.take(base.len() as int) =~= base);
    assert(url.skip(base.len() as int + 1) =~= joined(all, seq!['&']));
    assert forall|i: int| 0 <= i < all.len() implies free_of(#[trigger] all[i], '&') by {
        if i < a.len() {
            assert(all[i] == a[i]);
        } else {
            assert(all[i] == b[i - a.len()]);
        }
    }
    splitting_undoes_joining(all, '&');
    lemma_code_among(a, b, 0);
    lemma_other_pairs(a, b);
    if a.len() == 1 {
        assert(code_among(a, 1) is None);
        assert(a.drop_last().len() == 0);
        assert(other_pairs(a.drop_last()) =~= Seq::<Seq<char>>::empty());
        assert(Seq::<Seq<char>>::empty().push(a[0]) =~= a);
    }
    lemma_next_sep_is(base, '?', 0, base.len() as int);
    lemma_first_char(base, '?');
}

} // verus!
