//! The resolver: decides whether a filtered set of candidates collapses to
//! a single launch decision. A sole remaining candidate is confirmed
//! regardless of the query; otherwise the first candidate with an alias
//! exactly equal to the query wins; otherwise there is no resolution.

use vstd::prelude::*;

use crate::prefix::prefixed;
use crate::shortcut::{Shortcut, ShortcutV};
use crate::text::str_eq;

verus! {

/// Some alias of `s` is exactly the query (not merely containing it).
pub open spec fn has_exact(s: ShortcutV, q: Seq<char>) -> bool {
    exists|i: int| 0 <= i < s.seq.len() && #[trigger] s.seq[i] == q
}

/// The first index at or after `i` whose shortcut has an alias exactly
/// equal to `q`, if any.
pub open spec fn first_exact_from(f: Seq<ShortcutV>, q: Seq<char>, i: int) -> Option<int>
    decreases f.len() - i,
{
    if i < 0 || i >= f.len() {
        None
    } else if has_exact(f[i], q) {
        Some(i)
    } else {
        first_exact_from(f, q, i + 1)
    }
}

/// The resolver's decision over the filtered corpus: the sole entry when
/// exactly one remains, irrespective of the query; else the first entry
/// whose alias equals the query exactly; else none.
pub open spec fn resolution_index(f: Seq<ShortcutV>, q: Seq<char>) -> Option<int> {
    if f.len() == 1 {
        Some(0)
    } else {
        first_exact_from(f, q, 0)
    }
}

/// Skipping a stretch of non-matching entries does not change the first
/// exact match.
proof fn lemma_first_exact_skip(f: Seq<ShortcutV>, q: Seq<char>, i: int, k: int)
    requires
        0 <= i <= k <= f.len(),
        forall|j: int| i <= j < k ==> !has_exact(#[trigger] f[j], q),
    ensures
        first_exact_from(f, q, i) == first_exact_from(f, q, k),
    decreases k - i,
{
    if i < k {
        lemma_first_exact_skip(f, q, i + 1, k);
    }
}

/// Whether some alias of `s` equals `query` exactly.
pub fn has_exact_alias(s: &Shortcut, query: &str) -> (r: bool)
    ensures
        r == has_exact(s@, query@),
{
    let n: usize = s.seq.len();
    let mut i: usize = 0;
    while i < n
        invariant
            n == s.seq.len(),
            0 <= i <= n,
            forall|j: int| 0 <= j < i ==> s@.seq[j] != query@,
        decreases n - i,
    {
        if str_eq(s.seq[i].as_str(), query) {
            proof {
                assert(s@.seq[i as int] == query@);
            }
            return true;
        }
        i = i + 1;
    }
    false
}

/// The resolver's decision as an index into `filtered`, exactly
/// [`resolution_index`].
pub fn resolve_index(filtered: &Vec<Shortcut>, query: &str) -> (r: Option<usize>)
    ensures
        r matches Some(i) ==> i < filtered.len(),
        match r {
            Some(i) => resolution_index(filtered.deep_view(), query@) == Some(i as int),
            None => resolution_index(filtered.deep_view(), query@) is None,
        },
{
    let ghost f = filtered.deep_view();
    if filtered.len() == 1 {
        return Some(0);
    }
    let n: usize = filtered.len();
    let mut k: usize = 0;
    while k < n
        invariant
            n == filtered.len(),
            f == filtered.deep_view(),
            n != 1,
            0 <= k <= n,
            forall|j: int| 0 <= j < k ==> !has_exact(#[trigger] f[j], query@),
        decreases n - k,
    {
        if has_exact_alias(&filtered[k], query) {
            proof {
                lemma_first_exact_skip(f, query@, 0, k as int);
            }
            return Some(k);
        }
        k = k + 1;
    }
    proof {
        lemma_first_exact_skip(f, query@, 0, n as int);
    }
    None
}

/// The resolver's launch target: the resolved entry's prefixed path. A
/// resolvable decision whose prefix the platform cannot supply yields no
/// resolution rather than an error.
pub fn resolve(filtered: &Vec<Shortcut>, query: &str) -> (r: Option<String>)
    ensures
        match resolution_index(filtered.deep_view(), query@) {
            Some(i) => match r {
                Some(p) => (filtered.deep_view()[i].path_prefix is None ==> p@
                    == filtered.deep_view()[i].path) && (filtered.deep_view()[i].path_prefix
                    is Some ==> exists|b: Seq<char>|
                    p@ == prefixed(b, filtered.deep_view()[i].path)),
                None => filtered.deep_view()[i].path_prefix is Some,
            },
            None => r is None,
        },
{
    match resolve_index(filtered, query) {
        None => None,
        Some(i) => filtered[i].get_prefixed_path(),
    }
}

} // verus!
