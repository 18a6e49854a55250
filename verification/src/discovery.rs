//! Discovery decisions for Rust/Soroban projects.
//!
//! The filesystem walk itself is done by the caller; this module decides what
//! the walk prunes, keeps and skips:
//! * symlinks are not followed by default,
//! * well-known build/vendor directories are skipped,
//! * user-supplied exclude globs are applied.
use vstd::prelude::*;

use crate::error::ScanError;
use crate::finding::views;
use crate::model::opt_view;
use crate::path;
use crate::text;

verus! {

/// Options controlling discovery behavior.
#[derive(Debug, Clone)]
pub struct DiscoveryOptions {
    /// Whether to follow symbolic links. Defaults to `false`.
    pub follow_symlinks: bool,
    /// Glob patterns (relative to the scan root) to exclude.
    pub exclude: Vec<String>,
}

impl Default for DiscoveryOptions {
    fn default() -> (r: Self)
        ensures
            !r.follow_symlinks,
            r.exclude@.len() == 0,
    {
        DiscoveryOptions { follow_symlinks: false, exclude: Vec::new() }
    }
}

/// Files discovered during a scan.
#[derive(Debug, Clone, PartialEq, Eq)]
pub struct Discovered {
    /// Paths to `Cargo.toml` manifests.
    pub manifests: Vec<String>,
    /// Paths to Rust source files.
    pub rust_files: Vec<String>,
}

/// Directory names that are always skipped during discovery.
pub open spec fn ignored_dir_name(name: Seq<char>) -> bool {
    name == ".git"@ || name == ".hg"@ || name == ".svn"@ || name == "target"@ || name
        == "node_modules"@ || name == "vendor"@ || name == ".scanner-cache"@ || name == ".cargo"@
}

/// Returns true if a directory with this name is pruned from discovery.
pub fn is_ignored_dir(name: &str) -> (r: bool)
    ensures
        r == ignored_dir_name(name@),
{
    text::str_eq(name, ".git") || text::str_eq(name, ".hg") || text::str_eq(name, ".svn")
        || text::str_eq(name, "target") || text::str_eq(name, "node_modules") || text::str_eq(
        name,
        "vendor",
    ) || text::str_eq(name, ".scanner-cache") || text::str_eq(name, ".cargo")
}

/// Forward-slash form of a path.
pub fn to_slash(path: &str) -> (r: String)
    ensures
        r@ == crate::finding::slash_path(path@),
{
    text::replace_char_exec(path, '\\', '/')
}

/// The error text `globset::Glob::new` gives for an invalid glob, if any.
pub uninterp spec fn glob_error(pattern: Seq<char>) -> Option<Seq<char>>;

/// The error text `GlobSetBuilder::build` gives for a set of valid globs
/// (such as a matcher over the size limit), if any.
pub uninterp spec fn glob_set_error(patterns: Seq<Seq<char>>) -> Option<Seq<char>>;

/// The globs a built `GlobSet` was made of, in order.
pub uninterp spec fn glob_set_patterns(set: globset::GlobSet) -> Seq<Seq<char>>;

/// Whether some glob of a set matches a path.
pub uninterp spec fn glob_set_match(patterns: Seq<Seq<char>>, path: Seq<char>) -> bool;

/// `globset`'s compiled set of globs.
#[verifier::external_type_specification]
#[verifier::external_body]
pub struct ExGlobSet(globset::GlobSet);

/// Checks a glob pattern.
///
/// Calls `globset::Glob::new`; its error text, if any, is named `glob_error`.
#[verifier::external_body]
fn glob_check(pattern: &str) -> (r: Option<String>)
    ensures
        opt_view(r) == glob_error(pattern@),
{
    globset::Glob::new(pattern).err().map(|e| e.to_string())
}

/// Builds one `GlobSet` from valid globs.
///
/// Adds `Glob::new(p)` for each pattern to a `GlobSetBuilder` (none fails:
/// the patterns are valid) and calls `build`, which returns its error rather
/// than panicking; that error is named `glob_set_error`, and the set it builds
/// holds the patterns in order.
#[verifier::external_body]
fn build_glob_set(patterns: &Vec<String>) -> (r: Result<globset::GlobSet, String>)
    requires
        forall|i: int| 0 <= i < patterns@.len() ==> glob_error(#[trigger] patterns@[i]@) is None,
    ensures
        match r {
            Ok(set) => glob_set_error(views(patterns@)) is None && glob_set_patterns(set) == views(patterns@),
            Err(e) => glob_set_error(views(patterns@)) == Some(e@),
        },
{
    let mut builder = globset::GlobSetBuilder::new();
    for p in patterns {
        if let Ok(g) = globset::Glob::new(p) {
            builder.add(g);
        }
    }
    builder.build().map_err(|e| e.to_string())
}

/// Whether some glob of a set matches a path.
///
/// Calls `GlobSet::is_match`; the answer is named `glob_set_match` over the
/// set's globs.
#[verifier::external_body]
fn glob_set_is_match(set: &globset::GlobSet, path: &str) -> (r: bool)
    ensures
        r == glob_set_match(glob_set_patterns(*set), path@),
{
    set.is_match(path)
}

/// A validated set of exclude globs.
#[derive(Debug)]
pub struct ExcludeSet {
    patterns: Vec<String>,
    set: globset::GlobSet,
}

impl ExcludeSet {
    /// The patterns of the set.
    pub closed spec fn pattern_views(&self) -> Seq<Seq<char>> {
        views(self.patterns@)
    }

    /// Every pattern in the set is a valid glob, and the compiled set was
    /// built from the patterns.
    #[verifier::type_invariant]
    pub closed spec fn valid(&self) -> bool {
        &&& forall|i: int| 0 <= i < self.patterns@.len() ==> glob_error(#[trigger] self.patterns@[i]@) is None
        &&& glob_set_error(views(self.patterns@)) is None
        &&& glob_set_patterns(self.set) == views(self.patterns@)
    }
}

/// The first invalid pattern among the first `n`, with its error text.
pub open spec fn first_invalid(ps: Seq<Seq<char>>, n: int) -> Option<(Seq<char>, Seq<char>)>
    decreases n,
{
    if n <= 0 {
        None
    } else {
        match first_invalid(ps, n - 1) {
            Some(x) => Some(x),
            None => match glob_error(ps[n - 1]) {
                Some(e) => Some((ps[n - 1], e)),
                None => None,
            },
        }
    }
}

/// Once an invalid pattern is found among the first `k`, it stays the first.
proof fn lemma_first_invalid_stays(ps: Seq<Seq<char>>, k: int, n: int)
    requires
        0 < k <= n,
        first_invalid(ps, k) is Some,
    ensures
        first_invalid(ps, n) == first_invalid(ps, k),
    decreases n - k,
{
    if n > k {
        lemma_first_invalid_stays(ps, k, n - 1);
    }
}

/// The configuration error for an invalid exclude glob.
pub open spec fn invalid_glob_message(pattern: Seq<char>, e: Seq<char>) -> Seq<char> {
    "invalid exclude glob '"@ + pattern + "': "@ + e
}

/// The configuration error for a set of valid globs that cannot be built.
pub open spec fn invalid_set_message(e: Seq<char>) -> Seq<char> {
    "invalid exclude globs: "@ + e
}

/// Compiles exclude patterns into one set, rejecting the first invalid
/// pattern, then a set that cannot be built.
pub fn compile_excludes(patterns: &[String]) -> (r: Result<ExcludeSet, ScanError>)
    ensures
        match r {
            Ok(set) => set.pattern_views() == views(patterns@) && first_invalid(
                views(patterns@),
                patterns@.len() as int,
            ) is None && glob_set_error(views(patterns@)) is None,
            Err(ScanError::Config(m)) => match first_invalid(views(patterns@), patterns@.len() as int) {
                Some((p, e)) => m@ == invalid_glob_message(p, e),
                None => match glob_set_error(views(patterns@)) {
                    Some(e) => m@ == invalid_set_message(e),
                    None => false,
                },
            },
            Err(_) => false,
        },
{
    let mut kept: Vec<String> = Vec::new();
    let mut i: usize = 0;
    while i < patterns.len()
        invariant
            i <= patterns@.len(),
            views(kept@) == views(patterns@).take(i as int),
            forall|k: int| 0 <= k < kept@.len() ==> glob_error(#[trigger] kept@[k]@) is None,
            first_invalid(views(patterns@), i as int) is None,
        decreases patterns@.len() - i,
    {
        let p = &patterns[i];
        match glob_check(p.as_str()) {
            Some(e) => {
                let mut m = text::concat2("invalid exclude glob '", p.as_str());
                text::push_str(&mut m, "': ");
                text::push_str(&mut m, e.as_str());
                proof {
                    assert(views(patterns@)[i as int] == p@);
                    lemma_first_invalid_stays(views(patterns@), i + 1, patterns@.len() as int);
                }
                return Err(ScanError::Config(m));
            },
            None => {
                let ghost prev = views(kept@);
                kept.push(p.clone());
                assert(views(kept@) =~= prev.push(p@));
                assert(views(patterns@).take(i + 1) =~= views(patterns@).take(i as int).push(p@));
            },
        }
        i = i + 1;
    }
    assert(views(patterns@).take(i as int) =~= views(patterns@));
    match build_glob_set(&kept) {
        Ok(set) => Ok(ExcludeSet { patterns: kept, set }),
        Err(e) => Err(ScanError::Config(text::concat2("invalid exclude globs: ", e.as_str()))),
    }
}

/// The text excludes are matched against: the path relative to the root
/// (or the path itself when it is not under the root), with forward slashes.
pub open spec fn exclude_subject(root: Seq<char>, p: Seq<char>) -> Seq<char> {
    crate::finding::slash_path(
        match path::strip_prefix_spec(p, root) {
            Some(rel) => rel,
            None => p,
        },
    )
}

/// Whether `path` (under `root`) is excluded by the set.
pub fn is_excluded(root: &str, path: &str, excludes: &ExcludeSet) -> (r: bool)
    ensures
        r == glob_set_match(excludes.pattern_views(), exclude_subject(root@, path@)),
{
    let rel = path::relative_to(path, root);
    let subject = to_slash(rel.as_str());
    proof {
        use_type_invariant(excludes);
    }
    glob_set_is_match(&excludes.set, subject.as_str())
}

/// What discovery does with one walked entry.
#[derive(Debug, Clone, Copy, PartialEq, Eq, Structural)]
pub enum EntryAction {
    /// The entry is not collected.
    Skip,
    /// The entry is a `Cargo.toml` manifest.
    Manifest,
    /// The entry is a Rust source file.
    RustFile,
}

/// The action for an entry: the root, unfollowed symlinks, excluded paths and
/// directories are skipped; `Cargo.toml` files are manifests and `*.rs` files
/// are sources.
pub open spec fn entry_action(
    root: Seq<char>,
    p: Seq<char>,
    is_dir: bool,
    is_symlink: bool,
    follow_symlinks: bool,
    patterns: Seq<Seq<char>>,
) -> EntryAction {
    if p == root || (is_symlink && !follow_symlinks) || glob_set_match(
        patterns,
        exclude_subject(root, p),
    ) || is_dir {
        EntryAction::Skip
    } else {
        match path::file_name_spec(p) {
            Some(n) => if n == "Cargo.toml"@ {
                EntryAction::Manifest
            } else if text::has_suffix(n, ".rs"@) {
                EntryAction::RustFile
            } else {
                EntryAction::Skip
            },
            None => EntryAction::Skip,
        }
    }
}

/// Decides what discovery does with a walked entry.
pub fn classify_entry(
    root: &str,
    p: &str,
    is_dir: bool,
    is_symlink: bool,
    opts: &DiscoveryOptions,
    excludes: &ExcludeSet,
) -> (r: EntryAction)
    ensures
        r == entry_action(
            root@,
            p@,
            is_dir,
            is_symlink,
            opts.follow_symlinks,
            excludes.pattern_views(),
        ),
{
    if text::str_eq(p, root) {
        return EntryAction::Skip;
    }
    if is_symlink && !opts.follow_symlinks {
        return EntryAction::Skip;
    }
    if is_excluded(root, p, excludes) {
        return EntryAction::Skip;
    }
    if is_dir {
        return EntryAction::Skip;
    }
    match path::file_name(p) {
        Some(n) => {
            if text::str_eq(n.as_str(), "Cargo.toml") {
                EntryAction::Manifest
            } else if text::ends_with(n.as_str(), ".rs") {
                EntryAction::RustFile
            } else {
                EntryAction::Skip
            }
        },
        None => EntryAction::Skip,
    }
}

} // verus!
