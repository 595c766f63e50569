//! The matcher: a pure substring-containment filter over the shortcuts'
//! alias sequences. A blank query disables filtering; any other query keeps,
//! in original order, exactly the shortcuts with at least one alias that
//! contains the query as a literal substring.

use vstd::prelude::*;

use crate::shortcut::{Shortcut, ShortcutV};
use crate::text::{contains_sub, is_blank, is_blank_str, str_contains};

verus! {

/// At least one alias of `s` contains `q` as a literal substring. A shortcut
/// with no aliases matches no query at all, not even the empty one.
pub open spec fn matches_query(s: ShortcutV, q: Seq<char>) -> bool {
    exists|i: int| 0 <= i < s.seq.len() && contains_sub(#[trigger] s.seq[i], q)
}

/// What the matcher returns: the corpus itself on a blank query, otherwise
/// the subsequence of shortcuts matching `q`, in original order.
pub open spec fn find_spec(c: Seq<ShortcutV>, q: Seq<char>) -> Seq<ShortcutV> {
    if is_blank(q) {
        c
    } else {
        c.filter(|s: ShortcutV| matches_query(s, q))
    }
}

/// Whether some alias of `s` contains `query` as a substring.
pub fn shortcut_matches(s: &Shortcut, query: &str) -> (r: bool)
    ensures
        r == matches_query(s@, query@),
{
    let n: usize = s.seq.len();
    let mut i: usize = 0;
    while i < n
        invariant
            n == s.seq.len(),
            0 <= i <= n,
            forall|j: int| 0 <= j < i ==> !contains_sub(#[trigger] s@.seq[j], query@),
        decreases n - i,
    {
        if str_contains(s.seq[i].as_str(), query) {
            proof {
                assert(contains_sub(s@.seq[i as int], query@));
            }
            return true;
        }
        i = i + 1;
    }
    false
}

/// The matcher: filters `shortcuts` by `search` as [`find_spec`] says.
pub fn find(shortcuts: &Vec<Shortcut>, search: &str) -> (r: Vec<Shortcut>)
    ensures
        r.deep_view() == find_spec(shortcuts.deep_view(), search@),
{
    let ghost c = shortcuts.deep_view();
    let ghost pred = |s: ShortcutV| matches_query(s, search@);
    let blank = is_blank_str(search);
    let mut r: Vec<Shortcut> = Vec::new();
    let n: usize = shortcuts.len();
    let mut i: usize = 0;
    while i < n
        invariant
            n == shortcuts.len(),
            c == shortcuts.deep_view(),
            pred == (|s: ShortcutV| matches_query(s, search@)),
            blank == is_blank(search@),
            0 <= i <= n,
            blank ==> r.deep_view() == c.subrange(0, i as int),
            !blank ==> r.deep_view() == c.subrange(0, i as int).filter(pred),
        decreases n - i,
    {
        let ghost prev = r.deep_view();
        let s = &shortcuts[i];
        let keep = if blank {
            true
        } else {
            shortcut_matches(s, search)
        };
        if keep {
            r.push(s.clone());
            proof {
                assert(r.deep_view() =~= prev.push(c[i as int]));
            }
        }
        proof {
            lemma_filter_take_step(c, pred, i as int);
            assert(c.subrange(0, i + 1).drop_last() =~= c.subrange(0, i as int));
            if blank {
                assert(r.deep_view() =~= c.subrange(0, i + 1));
            }
        }
        i = i + 1;
    }
    proof {
        assert(c.subrange(0, n as int) =~= c);
    }
    r
}

/// Extending a prefix of `c` by one element extends its filtered image by
/// that element exactly when the element satisfies the predicate.
pub(crate) proof fn lemma_filter_take_step(c: Seq<ShortcutV>, pred: spec_fn(ShortcutV) -> bool, i: int)
    requires
        0 <= i < c.len(),
    ensures
        c.subrange(0, i + 1).filter(pred) == if pred(c[i]) {
            c.subrange(0, i).filter(pred).push(c[i])
        } else {
            c.subrange(0, i).filter(pred)
        },
{
    reveal(Seq::filter);
    let ext = c.subrange(0, i + 1);
    assert(ext.drop_last() =~= c.subrange(0, i));
    assert(ext.last() == c[i]);
}

/// Every sequence whose elements all satisfy `pred` is fixed by the filter.
proof fn lemma_filter_all(s: Seq<ShortcutV>, pred: spec_fn(ShortcutV) -> bool)
    requires
        forall|i: int| 0 <= i < s.len() ==> pred(#[trigger] s[i]),
    ensures
        s.filter(pred) == s,
    decreases s.len(),
{
    reveal(Seq::filter);
    if s.len() == 0 {
        assert(s.filter(pred) =~= s);
    } else {
        lemma_filter_all(s.drop_last(), pred);
        assert(s.filter(pred) =~= s);
    }
}

/// The matcher is the identity on the empty query: `find_spec(c, "") == c`.
pub proof fn lemma_find_empty_query(c: Seq<ShortcutV>)
    ensures
        find_spec(c, Seq::<char>::empty()) == c,
{
}

/// Soundness and completeness of a non-blank filter: everything the matcher
/// returns has an alias containing the query, and every corpus entry with
/// such an alias is returned.
pub proof fn lemma_find_membership(c: Seq<ShortcutV>, q: Seq<char>)
    requires
        !is_blank(q),
    ensures
        forall|x: ShortcutV| #[trigger] find_spec(c, q).contains(x) ==> matches_query(x, q),
        forall|x: ShortcutV|
            c.contains(x) && #[trigger] matches_query(x, q) ==> find_spec(c, q).contains(x),
{
    let pred = |s: ShortcutV| matches_query(s, q);
    let f = c.filter(pred);
    assert forall|x: ShortcutV| #[trigger] f.contains(x) implies matches_query(x, q) by {
        let i = choose|i: int| 0 <= i < f.len() && f[i] == x;
        c.lemma_filter_pred(pred, i);
    }
    assert forall|x: ShortcutV| c.contains(x) && #[trigger] matches_query(x, q) implies f.contains(
        x,
    ) by {
        let i = choose|i: int| 0 <= i < c.len() && c[i] == x;
        c.lemma_filter_contains(pred, i);
    }
}

/// The matcher is idempotent: filtering its own output with the same query
/// changes nothing.
pub proof fn lemma_find_idempotent(c: Seq<ShortcutV>, q: Seq<char>)
    ensures
        find_spec(find_spec(c, q), q) == find_spec(c, q),
{
    if !is_blank(q) {
        let pred = |s: ShortcutV| matches_query(s, q);
        let f = c.filter(pred);
        assert forall|i: int| 0 <= i < f.len() implies pred(#[trigger] f[i]) by {
            c.lemma_filter_pred(pred, i);
        }
        lemma_filter_all(f, pred);
    }
}

} // verus!
