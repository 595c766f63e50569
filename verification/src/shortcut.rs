//! The shortcut model: one launchable entry with its alias sequences, its
//! target kind and an optional well-known base-directory prefix.

use vstd::prelude::*;

verus! {

/// The category of target a shortcut launches; it drives presentation
/// grouping and prefix eligibility.
#[derive(Clone, Copy, PartialEq, Eq, Structural, Debug)]
pub enum ShortcutKind {
    App,
    Dir,
    File,
    Url,
}

/// A well-known base directory that is prepended to a shortcut's path at
/// launch time (never at load time).
#[derive(Clone, Copy, PartialEq, Eq, Structural, Debug)]
pub enum ShortcutPathPrefix {
    Documents,
    Appdata,
}

/// The mathematical value of a [`Shortcut`]: every string replaced by its
/// character sequence.
pub ghost struct ShortcutV {
    pub path: Seq<char>,
    pub seq: Seq<Seq<char>>,
    pub description: Option<Seq<char>>,
    pub kind: ShortcutKind,
    pub path_prefix: Option<ShortcutPathPrefix>,
}

/// One launchable entry. `seq` holds the alias strings the user may type to
/// reach it; the first alias is the canonical display key. `path` is an app
/// identifier, filesystem path or URL depending on `kind`.
pub struct Shortcut {
    pub path: String,
    pub seq: Vec<String>,
    pub description: Option<String>,
    pub kind: ShortcutKind,
    pub path_prefix: Option<ShortcutPathPrefix>,
}

impl View for Shortcut {
    type V = ShortcutV;

    open spec fn view(&self) -> ShortcutV {
        ShortcutV {
            path: self.path@,
            seq: self.seq.deep_view(),
            description: self.description.deep_view(),
            kind: self.kind,
            path_prefix: self.path_prefix,
        }
    }
}

impl DeepView for Shortcut {
    type V = ShortcutV;

    open spec fn deep_view(&self) -> ShortcutV {
        self.view()
    }
}

impl Clone for Shortcut {
    fn clone(&self) -> (r: Self)
        ensures
            r@ == self@,
    {
        let r = Shortcut {
            path: self.path.clone(),
            seq: self.seq.clone(),
            description: self.description.clone(),
            kind: self.kind,
            path_prefix: self.path_prefix,
        };
        proof {
            assert(r.seq.deep_view() =~~= self.seq.deep_view());
            assert(r.description.deep_view() =~~= self.description.deep_view());
            assert(r@ =~~= self@);
        }
        r
    }
}

/// An ordered list of shortcuts as loaded from the external configuration
/// source; immutable for the session's lifetime.
pub struct Config {
    pub shortcuts: Vec<Shortcut>,
}

impl View for Config {
    type V = Seq<ShortcutV>;

    open spec fn view(&self) -> Seq<ShortcutV> {
        self.shortcuts.deep_view()
    }
}

} // verus!
