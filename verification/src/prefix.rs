//! Deferred resolution of well-known base-directory prefixes. The base
//! directory is looked up only at launch time; the lookup's outcome depends
//! on the environment, so contracts state the shape of the result (separator
//! normalization and joining) rather than its value.

use vstd::prelude::*;

use crate::shortcut::{Shortcut, ShortcutPathPrefix};

verus! {

/// Every backslash replaced by a forward slash, so that resolved paths use
/// forward-slash separators regardless of platform.
pub open spec fn normalize_slashes(s: Seq<char>) -> Seq<char> {
    s.map_values(|c: char| if c == '\\' { '/' } else { c })
}

/// A shortcut path joined onto a resolved base directory: the normalized
/// base, a forward slash, then the path.
pub open spec fn prefixed(base: Seq<char>, path: Seq<char>) -> Seq<char> {
    normalize_slashes(base) + seq!['/'] + path
}

/// Relies on `directories::UserDirs`: `new` snapshots the user directories
/// of the environment, and `document_dir` is the platform's documents
/// folder, if it defines one. The result depends on the environment, so
/// nothing is promised of its value.
#[verifier::external_body]
fn documents_dir() -> Option<String> {
    let dirs = directories::UserDirs::new()?;
    Some(dirs.document_dir()?.to_str()?.to_string())
}

/// Relies on `directories::BaseDirs`: `new` snapshots the base directories
/// of the environment, and `config_dir` is the platform's per-user
/// application-data directory. The result depends on the environment, so
/// nothing is promised of its value.
#[verifier::external_body]
fn appdata_dir() -> Option<String> {
    let dirs = directories::BaseDirs::new()?;
    Some(dirs.config_dir().to_str()?.to_string())
}

/// The base directory a prefix stands for, as the environment reports it,
/// before separator normalization.
fn base_dir_of(prefix: &ShortcutPathPrefix) -> Option<String> {
    match prefix {
        ShortcutPathPrefix::Documents => documents_dir(),
        ShortcutPathPrefix::Appdata => appdata_dir(),
    }
}

/// Replaces every backslash with a forward slash.
pub fn normalize_path_str(s: &str) -> (r: String)
    ensures
        r@ == normalize_slashes(s@),
{
    let n: usize = s.unicode_len();
    let mut r = String::new();
    let mut i: usize = 0;
    while i < n
        invariant
            n == s@.len(),
            0 <= i <= n,
            r@ == normalize_slashes(s@.subrange(0, i as int)),
        decreases n - i,
    {
        let ghost prev = r@;
        if s.get_char(i) == '\\' {
            r.append("/");
            proof {
                reveal_strlit("/");
            }
        } else {
            let piece = s.substring_char(i, i + 1);
            r.append(piece);
        }
        proof {
            assert(r@ =~= normalize_slashes(s@.subrange(0, i + 1)));
        }
        i = i + 1;
    }
    proof {
        assert(s@.subrange(0, n as int) =~= s@);
    }
    r
}

/// Joins `path` onto `base` as [`prefixed`] says: the base normalized to
/// forward slashes, a slash, then the path.
pub fn join_prefixed(base: &str, path: &str) -> (r: String)
    ensures
        r@ == prefixed(base@, path@),
{
    let mut r = normalize_path_str(base);
    r.append("/");
    r.append(path);
    proof {
        reveal_strlit("/");
        assert(r@ =~= prefixed(base@, path@));
    }
    r
}

/// Resolves a prefix to its base directory in display form: forward-slash
/// separators regardless of platform. `None` when the platform defines no
/// such directory; the caller treats that as "no resolution".
pub fn resolve_prefix(prefix: &ShortcutPathPrefix) -> (r: Option<String>)
    ensures
        r matches Some(s) ==> exists|b: Seq<char>| s@ == normalize_slashes(b),
{
    match base_dir_of(prefix) {
        None => None,
        Some(raw) => {
            let s = normalize_path_str(raw.as_str());
            proof {
                assert(s@ == normalize_slashes(raw@));
            }
            Some(s)
        },
    }
}

impl Shortcut {
    /// The launch target: `path` with its prefix (if any) resolved and
    /// joined in front. `None` exactly when a prefix is present but the
    /// platform defines no base directory for it (or reports one that is
    /// not valid text).
    pub fn get_prefixed_path(&self) -> (r: Option<String>)
        ensures
            self.path_prefix is None ==> (r matches Some(p) && p@ == self@.path),
            self.path_prefix is Some ==> match r {
                Some(p) => exists|b: Seq<char>| p@ == prefixed(b, self@.path),
                None => true,
            },
    {
        match &self.path_prefix {
            None => Some(self.path.clone()),
            Some(prefix) => match base_dir_of(prefix) {
                None => None,
                Some(base) => {
                    let p = join_prefixed(base.as_str(), self.path.as_str());
                    proof {
                        assert(p@ == prefixed(base@, self@.path));
                    }
                    Some(p)
                },
            },
        }
    }
}

} // verus!
