//! The display model the presentation adapter consumes: the filtered subset
//! grouped by kind in the fixed order App, Dir, File, Url, with the original
//! corpus order preserved inside each group.

use vstd::prelude::*;

use crate::matcher::lemma_filter_take_step;
use crate::shortcut::{Shortcut, ShortcutKind, ShortcutV};

verus! {

/// The subsequence of `c` with the given kind, in original order.
pub open spec fn of_kind(c: Seq<ShortcutV>, k: ShortcutKind) -> Seq<ShortcutV> {
    c.filter(|s: ShortcutV| s.kind == k)
}

/// The grouped display order: every App entry, then every Dir, File and
/// Url entry, each group in original corpus order.
pub open spec fn grouped(c: Seq<ShortcutV>) -> Seq<ShortcutV> {
    of_kind(c, ShortcutKind::App) + of_kind(c, ShortcutKind::Dir) + of_kind(
        c,
        ShortcutKind::File,
    ) + of_kind(c, ShortcutKind::Url)
}

/// The shortcuts of one kind, in original order.
pub fn filter_by_kind(shortcuts: &Vec<Shortcut>, k: ShortcutKind) -> (r: Vec<Shortcut>)
    ensures
        r.deep_view() == of_kind(shortcuts.deep_view(), k),
{
    let ghost c = shortcuts.deep_view();
    let ghost pred = |s: ShortcutV| s.kind == k;
    let mut r: Vec<Shortcut> = Vec::new();
    let n: usize = shortcuts.len();
    let mut i: usize = 0;
    while i < n
        invariant
            n == shortcuts.len(),
            c == shortcuts.deep_view(),
            pred == (|s: ShortcutV| s.kind == k),
            0 <= i <= n,
            r.deep_view() == c.subrange(0, i as int).filter(pred),
        decreases n - i,
    {
        let ghost prev = r.deep_view();
        let s = &shortcuts[i];
        if s.kind == k {
            r.push(s.clone());
            proof {
                assert(r.deep_view() =~= prev.push(c[i as int]));
            }
        }
        proof {
            lemma_filter_take_step(c, pred, i as int);
            assert(c.subrange(0, i + 1).drop_last() =~= c.subrange(0, i as int));
        }
        i = i + 1;
    }
    proof {
        assert(c.subrange(0, n as int) =~= c);
    }
    r
}

/// The full display order of the current subset, as [`grouped`] says.
pub fn grouped_by_kind(shortcuts: &Vec<Shortcut>) -> (r: Vec<Shortcut>)
    ensures
        r.deep_view() == grouped(shortcuts.deep_view()),
{
    let mut r = filter_by_kind(shortcuts, ShortcutKind::App);
    let mut dirs = filter_by_kind(shortcuts, ShortcutKind::Dir);
    let mut files = filter_by_kind(shortcuts, ShortcutKind::File);
    let mut urls = filter_by_kind(shortcuts, ShortcutKind::Url);
    let ghost c = shortcuts.deep_view();
    let ghost r0 = r.deep_view();
    let ghost d0 = dirs.deep_view();
    let ghost f0 = files.deep_view();
    let ghost u0 = urls.deep_view();
    r.append(&mut dirs);
    r.append(&mut files);
    r.append(&mut urls);
    proof {
        assert(r.deep_view() =~= r0 + d0 + f0 + u0);
    }
    r
}

} // verus!
