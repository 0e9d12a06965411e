//! File names: the last component of a path, its stem and its extension.

use vstd::prelude::*;

#[allow(unused_imports)]
use crate::text::{list_view, pieces, slice_text, split, to_chars};

verus! {

/// The last of `segments` that is neither empty nor a single dot.
pub open spec fn last_component(segments: Seq<Seq<char>>) -> Option<Seq<char>>
    decreases segments.len(),
{
    if segments.len() == 0 {
        None
    } else if segments.last() == Seq::<char>::empty() || segments.last() == seq!['.'] {
        last_component(segments.drop_last())
    } else {
        Some(segments.last())
    }
}

/// The name that a path ends in; none if it ends in `..` or has no named component.
pub open spec fn file_name(path: Seq<char>) -> Option<Seq<char>> {
    match last_component(pieces(path, '/')) {
        Some(n) => if n == seq!['.', '.'] {
            None
        } else {
            Some(n)
        },
        None => None,
    }
}

/// The last position before `i` that holds a dot, or -1.
pub open spec fn dot_before(n: Seq<char>, i: int) -> int
    decreases i,
{
    if i <= 0 {
        -1
    } else if n[i - 1] == '.' {
        i - 1
    } else {
        dot_before(n, i - 1)
    }
}

/// What follows the last dot of the file name. A dot that begins the name does not count; without
/// another one the extension is empty.
pub open spec fn extension_of(path: Seq<char>) -> Seq<char> {
    match file_name(path) {
        Some(n) => {
            let d = dot_before(n, n.len() as int);
            if d > 0 {
                n.skip(d + 1)
            } else {
                Seq::empty()
            }
        },
        None => Seq::empty(),
    }
}

/// The file name without its extension and the dot before that; the whole path if it has no file
/// name.
pub open spec fn stem_of(path: Seq<char>) -> Seq<char> {
    match file_name(path) {
        Some(n) => {
            let d = dot_before(n, n.len() as int);
            if d > 0 {
                n.take(d)
            } else {
                n
            }
        },
        None => path,
    }
}

/// What `dot_before` finds is the last dot.
pub proof fn lemma_dot_before(n: Seq<char>, i: int)
    requires
        0 <= i <= n.len(),
    ensures
        -1 <= dot_before(n, i) < i,
        dot_before(n, i) >= 0 ==> n[dot_before(n, i)] == '.',
        forall|j: int| dot_before(n, i) < j < i ==> n[j] != '.',
    decreases i,
{
    if i > 0 && n[i - 1] != '.' {
        lemma_dot_before(n, i - 1);
    }
}

/// The name that a path ends in.
fn base_name(path: &str) -> (r: Option<Vec<char>>)
    ensures
        match r {
            Some(n) => file_name(path@) == Some(n@),
            None => file_name(path@) is None,
        },
{
    let segments = split(path, '/');
    let ghost all = list_view(segments@);
    let mut k: usize = segments.len();
    assert(all.take(k as int) == all);
    while k > 0
        invariant
            k <= segments@.len(),
            all == list_view(segments@),
            all == pieces(path@, '/'),
            last_component(all) == last_component(all.take(k as int)),
        decreases k,
    {
        let n = to_chars(segments[k - 1].as_str());
        assert(all.take(k as int).last() == n@);
        assert(all.take(k as int).drop_last() == all.take(k - 1));
        let skipped = n.len() == 0 || (n.len() == 1 && n[0] == '.');
        assert(skipped == (n@ == Seq::<char>::empty() || n@ == seq!['.'])) by {
            if n@.len() == 1 && n@[0] == '.' {
                assert(n@ == seq!['.']);
            }
            if n@.len() == 0 {
                assert(n@ == Seq::<char>::empty());
            }
        }
        if !skipped {
            if n.len() == 2 && n[0] == '.' && n[1] == '.' {
                assert(n@ == seq!['.', '.']);
                return None;
            }
            assert(n@ != seq!['.', '.']);
            return Some(n);
        }
        k = k - 1;
    }
    None
}

/// The last dot of `n`, if it does not begin the name.
fn inner_dot(n: &[char]) -> (r: Option<usize>)
    ensures
        match r {
            Some(d) => dot_before(n@, n@.len() as int) == d && 0 < d < n@.len(),
            None => dot_before(n@, n@.len() as int) <= 0,
        },
{
    proof {
        lemma_dot_before(n@, n@.len() as int);
    }
    let mut i: usize = n.len();
    while i > 0
        invariant
            i <= n@.len(),
            dot_before(n@, n@.len() as int) == dot_before(n@, i as int),
            dot_before(n@, n@.len() as int) < n@.len(),
        decreases i,
    {
        if n[i - 1] == '.' {
            if i - 1 > 0 {
                return Some(i - 1);
            }
            return None;
        }
        i = i - 1;
    }
    None
}

/// The extension of the file that `path` names.
pub fn extension(path: &str) -> (r: String)
    ensures
        r@ == extension_of(path@),
{
    match base_name(path) {
        Some(n) => match inner_dot(&n) {
            Some(d) => {
                let end: usize = n.len();
                let r = slice_text(&n, d + 1, end);
                assert(r@ == n@.skip(d + 1));
                r
            },
            None => String::new(),
        },
        None => String::new(),
    }
}

/// The name of the file that `path` names, without its extension.
pub fn stem(path: &str) -> (r: String)
    ensures
        r@ == stem_of(path@),
{
    match base_name(path) {
        Some(n) => match inner_dot(&n) {
            Some(d) => {
                let r = slice_text(&n, 0, d);
                assert(r@ == n@.take(d as int));
                r
            },
            None => {
                let r = slice_text(&n, 0, n.len());
                assert(r@ == n@);
                r
            },
        },
        None => path.to_string(),
    }
}

/// Stem, dot and extension make up the file name, where there is an extension.
pub proof fn stem_and_extension_make_the_name(path: Seq<char>)
    ensures
        extension_of(path).len() > 0 ==> file_name(path) == Some(
            stem_of(path) + seq!['.'] + extension_of(path),
        ),
        !extension_of(path).contains('.'),
{
    if let Some(n) = file_name(path) {
        lemma_dot_before(n, n.len() as int);
        let d = dot_before(n, n.len() as int);
        if d > 0 {
            assert(n.take(d) + seq!['.'] + n.skip(d + 1) =~= n);
        }
    }
}

} // verus!
