//! Analysis context: the read-only view rules use during a scan.
use vstd::prelude::*;

use crate::model::{Project, ProjectKind};
use crate::path;
use crate::source::{function_views, FunctionSummary, FunctionView, ParsedSource, SourceView};

verus! {

/// Immutable context passed to every rule.
///
/// The context is fixed for the duration of a scan, which keeps rule
/// evaluation deterministic and prevents rules from mutating shared state.
pub struct AnalysisContext<'a> {
    /// The project metadata.
    pub project: &'a Project,
    /// All parsed sources.
    pub sources: &'a [ParsedSource],
    /// The scan root.
    pub root: &'a str,
}

/// `p` relative to `root` when it lies under it, `p` itself otherwise.
pub open spec fn relative_spec(root: Seq<char>, p: Seq<char>) -> Seq<char> {
    match path::strip_prefix_spec(p, root) {
        Some(r) => r,
        None => p,
    }
}

/// Every (source, function) pair of a list of sources, in order; with
/// `entries_only`, only contract entry points.
pub open spec fn source_functions(sources: Seq<SourceView>, entries_only: bool) -> Seq<(SourceView, FunctionView)>
    decreases sources.len(),
{
    if sources.len() == 0 {
        Seq::empty()
    } else {
        let s = sources.last();
        source_functions(sources.drop_last(), entries_only) + functions_of(s, s.functions, entries_only)
    }
}

/// The (source, function) pairs of one source.
pub open spec fn functions_of(s: SourceView, fs: Seq<FunctionView>, entries_only: bool) -> Seq<(SourceView, FunctionView)>
    decreases fs.len(),
{
    if fs.len() == 0 {
        Seq::empty()
    } else {
        let r = functions_of(s, fs.drop_last(), entries_only);
        if !entries_only || fs.last().is_contract_entry_point {
            r.push((s, fs.last()))
        } else {
            r
        }
    }
}

impl<'a> AnalysisContext<'a> {
    /// The scan-root-relative form of a path.
    pub open spec fn relative_path_spec(&self, p: Seq<char>) -> Seq<char> {
        relative_spec(self.root@, p)
    }

    /// Whether the project is confirmed or likely Soroban.
    pub open spec fn soroban_spec(&self) -> bool {
        self.project.kind == ProjectKind::LikelySoroban || self.project.kind
            == ProjectKind::ConfirmedSoroban
    }

    /// Creates a context for a project and its parsed sources.
    pub fn new(project: &'a Project, sources: &'a [ParsedSource]) -> (r: Self)
        ensures
            r.project == project,
            r.sources@ == sources@,
            r.root@ == project.root@,
    {
        AnalysisContext { project, sources, root: project.root.as_str() }
    }

    /// The project metadata.
    pub fn project(&self) -> (r: &'a Project)
        ensures
            r == self.project,
    {
        self.project
    }

    /// The scan root.
    pub fn root(&self) -> (r: &'a str)
        ensures
            r@ == self.root@,
    {
        self.root
    }

    /// All parsed sources.
    pub fn sources(&self) -> (r: &'a [ParsedSource])
        ensures
            r@ == self.sources@,
    {
        self.sources
    }

    /// Whether the project is confirmed or likely Soroban.
    pub fn is_soroban(&self) -> (r: bool)
        ensures
            r == self.soroban_spec(),
    {
        self.project.kind == ProjectKind::LikelySoroban || self.project.kind
            == ProjectKind::ConfirmedSoroban
    }

    /// Whether the project is confirmed Soroban.
    pub fn is_confirmed_soroban(&self) -> (r: bool)
        ensures
            r == (self.project.kind == ProjectKind::ConfirmedSoroban),
    {
        self.project.kind == ProjectKind::ConfirmedSoroban
    }

    /// Returns the first parsed source with the given path, if present.
    pub fn source_for(&self, p: &str) -> (r: Option<&'a ParsedSource>)
        ensures
            match r {
                Some(s) => exists|i: int|
                    0 <= i < self.sources@.len() && self.sources@[i] == *s && s.path@ == p@
                        && forall|k: int| 0 <= k < i ==> (#[trigger] self.sources@[k]).path@ != p@,
                None => forall|k: int| 0 <= k < self.sources@.len() ==> (#[trigger] self.sources@[k]).path@ != p@,
            },
    {
        let mut i: usize = 0;
        while i < self.sources.len()
            invariant
                i <= self.sources@.len(),
                forall|k: int| 0 <= k < i ==> (#[trigger] self.sources@[k]).path@ != p@,
            decreases self.sources@.len() - i,
        {
            if crate::text::str_eq(self.sources[i].path.as_str(), p) {
                return Some(&self.sources[i]);
            }
            i = i + 1;
        }
        None
    }

    /// Converts a path to a scan-root-relative path when possible.
    pub fn relative_path(&self, p: &str) -> (r: String)
        ensures
            r@ == self.relative_path_spec(p@),
    {
        path::relative_to(p, self.root)
    }

    /// All exported contract entry points, with their sources.
    pub fn contract_entry_points(&self) -> (r: Vec<(&'a ParsedSource, &'a FunctionSummary)>)
        ensures
            r@.map_values(|p: (&ParsedSource, &FunctionSummary)| (p.0@, p.1@))
                == source_functions(self.sources@.map_values(|s: ParsedSource| s@), true),
    {
        self.pairs(true)
    }

    /// Every parsed source and every function it defines.
    pub fn all_functions(&self) -> (r: Vec<(&'a ParsedSource, &'a FunctionSummary)>)
        ensures
            r@.map_values(|p: (&ParsedSource, &FunctionSummary)| (p.0@, p.1@))
                == source_functions(self.sources@.map_values(|s: ParsedSource| s@), false),
    {
        self.pairs(false)
    }

    fn pairs(&self, entries_only: bool) -> (r: Vec<(&'a ParsedSource, &'a FunctionSummary)>)
        ensures
            r@.map_values(|p: (&ParsedSource, &FunctionSummary)| (p.0@, p.1@))
                == source_functions(self.sources@.map_values(|s: ParsedSource| s@), entries_only),
    {
        let ghost sv = self.sources@.map_values(|s: ParsedSource| s@);
        let mut r: Vec<(&'a ParsedSource, &'a FunctionSummary)> = Vec::new();
        let mut i: usize = 0;
        while i < self.sources.len()
            invariant
                i <= self.sources@.len(),
                sv == self.sources@.map_values(|s: ParsedSource| s@),
                r@.map_values(|p: (&ParsedSource, &FunctionSummary)| (p.0@, p.1@))
                    == source_functions(sv.take(i as int), entries_only),
            decreases self.sources@.len() - i,
        {
            assert(sv.take(i + 1).drop_last() =~= sv.take(i as int));
            let s: &'a ParsedSource = &self.sources[i];
            let ghost base = r@.map_values(|p: (&ParsedSource, &FunctionSummary)| (p.0@, p.1@));
            let ghost fs = function_views(s.functions@);
            let mut j: usize = 0;
            while j < s.functions.len()
                invariant
                    j <= s.functions@.len(),
                    fs == function_views(s.functions@),
                    r@.map_values(|p: (&ParsedSource, &FunctionSummary)| (p.0@, p.1@)) == base
                        + functions_of(s@, fs.take(j as int), entries_only),
                decreases s.functions@.len() - j,
            {
                assert(fs.take(j + 1).drop_last() =~= fs.take(j as int));
                let f: &'a FunctionSummary = &s.functions[j];
                let ghost rv = r@.map_values(|p: (&ParsedSource, &FunctionSummary)| (p.0@, p.1@));
                assert(fs[j as int] == f@);
                if !entries_only || f.is_contract_entry_point {
                    r.push((s, f));
                    assert(r@.map_values(|p: (&ParsedSource, &FunctionSummary)| (p.0@, p.1@)) =~= rv.push((s@, f@)));
                }
                j = j + 1;
                assert(r@.map_values(|p: (&ParsedSource, &FunctionSummary)| (p.0@, p.1@)) =~= base
                    + functions_of(s@, fs.take(j as int), entries_only));
            }
            assert(fs.take(s.functions@.len() as int) =~= fs);
            assert(sv[i as int] == s@);
            i = i + 1;
        }
        assert(sv.take(self.sources@.len() as int) =~= sv);
        r
    }

    /// The Soroban SDK version requirements discovered in manifests.
    pub fn soroban_sdk_versions(&self) -> (r: &'a Vec<String>)
        ensures
            *r == self.project.soroban.sdk_versions,
    {
        &self.project.soroban.sdk_versions
    }
}

} // verus!
