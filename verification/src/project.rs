//! Project loading: manifest intelligence and source parsing.
//!
//! Reading files is left to the caller; this module decides what the read
//! manifests and sources make of a project.
use vstd::prelude::*;

use crate::error::ScanError;
use crate::manifest::{self, manifest_spec, manifest_view, toml_document, ManifestView, TomlValue};
use crate::model::{Diagnostic, DiagnosticView, Manifest, Project};
use crate::path;
use crate::soroban;
use crate::source::{self, diagnostic_views, source_views, ParsedSource, SourceInput};
use crate::text;

verus! {

/// A fully loaded project: metadata plus parsed sources.
pub struct LoadedProject {
    /// Project metadata.
    pub project: Project,
    /// Parsed Rust source files.
    pub sources: Vec<ParsedSource>,
}

/// What reading one `Cargo.toml` gave.
pub enum ManifestInput {
    /// The file's text.
    Text {
        /// File path.
        path: String,
        /// File content.
        content: String,
    },
    /// The file could not be read.
    Unreadable {
        /// File path.
        path: String,
        /// The I/O error.
        error: std::io::Error,
    },
}

/// The path of a manifest input.
pub open spec fn input_path(m: ManifestInput) -> Seq<char> {
    match m {
        ManifestInput::Text { path, .. } => path@,
        ManifestInput::Unreadable { path, .. } => path@,
    }
}

/// The manifest a manifest input yields, if it is readable and valid.
pub open spec fn input_manifest(m: ManifestInput) -> Option<ManifestView> {
    match m {
        ManifestInput::Text { path, content } => match toml_document(content@) {
            Ok(TomlValue::Table(root)) => Some(manifest_spec(path@, root@)),
            _ => None,
        },
        ManifestInput::Unreadable { .. } => None,
    }
}

/// The manifest lies directly in the scan root.
pub open spec fn is_root_manifest(p: Seq<char>, root: Seq<char>) -> bool {
    match path::parent_spec(p) {
        Some(d) => path::components(d) == path::components(root),
        None => false,
    }
}

/// Some manifest that lies directly in the root cannot be read or parsed.
pub open spec fn root_manifest_fails(inputs: Seq<ManifestInput>, root: Seq<char>) -> bool {
    exists|i: int|
        0 <= i < inputs.len() && #[trigger] input_manifest(inputs[i]) is None && is_root_manifest(
            input_path(inputs[i]),
            root,
        )
}

/// The manifests among the first `n` inputs that parse, in order.
pub open spec fn parsed_manifests(inputs: Seq<ManifestInput>, n: int) -> Seq<ManifestView>
    decreases n,
{
    if n <= 0 {
        Seq::empty()
    } else {
        let r = parsed_manifests(inputs, n - 1);
        match input_manifest(inputs[n - 1]) {
            Some(m) => r.push(m),
            None => r,
        }
    }
}

/// The number of inputs among the first `n` that do not parse.
pub open spec fn failed_count(inputs: Seq<ManifestInput>, n: int) -> nat
    decreases n,
{
    if n <= 0 {
        0
    } else {
        failed_count(inputs, n - 1) + if input_manifest(inputs[n - 1]) is None {
            1nat
        } else {
            0nat
        }
    }
}

/// The paths of the inputs among the first `n` that do not parse, in order.
pub open spec fn failed_paths(inputs: Seq<ManifestInput>, n: int) -> Seq<Seq<char>>
    decreases n,
{
    if n <= 0 {
        Seq::empty()
    } else {
        let r = failed_paths(inputs, n - 1);
        if input_manifest(inputs[n - 1]) is None {
            r.push(input_path(inputs[n - 1]))
        } else {
            r
        }
    }
}

/// The warning for a nested manifest that is skipped: its path, and a message
/// that says it is skipped and why.
pub open spec fn skip_warning(d: DiagnosticView, path: Seq<char>) -> bool {
    &&& d.level == crate::model::DiagnosticLevel::Warning
    &&& d.path == Some(path)
    &&& d.line is None
    &&& text::has_prefix(d.message, "skipping unreadable manifest: "@)
}

fn same_path(a: &str, b: &str) -> (r: bool)
    ensures
        r == (path::components(a@) == path::components(b@)),
{
    let x = path::components_exec(a);
    let y = path::components_exec(b);
    if x.len() != y.len() {
        return false;
    }
    let mut i: usize = 0;
    while i < x.len()
        invariant
            i <= x@.len(),
            x@.len() == y@.len(),
            x@.len() == path::components(a@).len(),
            y@.len() == path::components(b@).len(),
            forall|k: int| 0 <= k < x@.len() ==> #[trigger] x@[k]@ == path::components(a@)[k],
            forall|k: int| 0 <= k < y@.len() ==> #[trigger] y@[k]@ == path::components(b@)[k],
            forall|k: int| 0 <= k < i ==> path::components(a@)[k] == #[trigger] path::components(b@)[k],
        decreases x@.len() - i,
    {
        if !text::seq_eq(&x[i], &y[i]) {
            assert(path::components(a@)[i as int] != path::components(b@)[i as int]);
            return false;
        }
        i = i + 1;
    }
    assert(path::components(a@) =~= path::components(b@));
    true
}

fn is_root_manifest_exec(p: &str, root: &str) -> (r: bool)
    ensures
        r == is_root_manifest(p@, root@),
{
    match path::parent(p) {
        Some(d) => same_path(d.as_str(), root),
        None => false,
    }
}

/// The views of a list of manifests.
pub open spec fn manifest_views(v: Seq<Manifest>) -> Seq<ManifestView> {
    v.map_values(|m: Manifest| manifest_view(m))
}

/// Copies a list of diagnostics.
pub(crate) fn copy_diagnostics(v: &Vec<Diagnostic>) -> (r: Vec<Diagnostic>)
    ensures
        diagnostic_views(r@) == diagnostic_views(v@),
{
    let mut r: Vec<Diagnostic> = Vec::new();
    let mut i: usize = 0;
    while i < v.len()
        invariant
            i <= v@.len(),
            diagnostic_views(r@) == diagnostic_views(v@).take(i as int),
        decreases v@.len() - i,
    {
        let d = &v[i];
        let c = Diagnostic {
            level: d.level,
            message: d.message.clone(),
            path: match &d.path {
                Some(p) => Some(p.clone()),
                None => None,
            },
            line: d.line,
        };
        let ghost b = diagnostic_views(r@);
        r.push(c);
        assert(diagnostic_views(r@) =~= b.push(c@));
        i = i + 1;
        assert(diagnostic_views(v@).take(i as int) =~= diagnostic_views(v@).take(i - 1).push(v@[i - 1]@));
    }
    assert(diagnostic_views(v@).take(v@.len() as int) =~= diagnostic_views(v@));
    r
}

/// The value of a project's Soroban evidence.
pub struct SorobanView {
    pub has_sdk_dependency: bool,
    pub contract_macros_found: bool,
    pub sdk_versions: Seq<Seq<char>>,
    pub evidence: Seq<Seq<char>>,
}

/// The value of a project's metadata.
pub struct ProjectView {
    pub root: Seq<char>,
    pub kind: crate::model::ProjectKind,
    pub manifests: Seq<ManifestView>,
    pub soroban: SorobanView,
    pub source_files: usize,
    pub diagnostics: Seq<DiagnosticView>,
}

/// The value of project metadata.
pub open spec fn project_view(p: Project) -> ProjectView {
    ProjectView {
        root: p.root@,
        kind: p.kind,
        manifests: manifest_views(p.manifests@),
        soroban: SorobanView {
            has_sdk_dependency: p.soroban.has_sdk_dependency,
            contract_macros_found: p.soroban.contract_macros_found,
            sdk_versions: crate::finding::views(p.soroban.sdk_versions@),
            evidence: crate::finding::views(p.soroban.evidence@),
        },
        source_files: p.source_files,
        diagnostics: diagnostic_views(p.diagnostics@),
    }
}

/// Copies project metadata.
pub fn copy_project(p: &Project) -> (r: Project)
    ensures
        project_view(r) == project_view(*p),
{
    let mut manifests: Vec<Manifest> = Vec::new();
    let mut i: usize = 0;
    while i < p.manifests.len()
        invariant
            i <= p.manifests@.len(),
            manifest_views(manifests@) == manifest_views(p.manifests@).take(i as int),
        decreases p.manifests@.len() - i,
    {
        let m = manifest::copy_manifest(&p.manifests[i]);
        let ghost b = manifest_views(manifests@);
        manifests.push(m);
        assert(manifest_views(manifests@) =~= b.push(manifest_view(m)));
        i = i + 1;
        assert(manifest_views(p.manifests@).take(i as int) =~= manifest_views(p.manifests@).take(i - 1).push(
            manifest_view(p.manifests@[i - 1]),
        ));
    }
    assert(manifest_views(p.manifests@).take(p.manifests@.len() as int) =~= manifest_views(p.manifests@));
    let soroban = crate::model::SorobanInfo {
        has_sdk_dependency: p.soroban.has_sdk_dependency,
        contract_macros_found: p.soroban.contract_macros_found,
        sdk_versions: crate::finding::copy_strings(&p.soroban.sdk_versions),
        evidence: crate::finding::copy_strings(&p.soroban.evidence),
    };
    Project {
        root: p.root.clone(),
        kind: p.kind,
        manifests,
        soroban,
        source_files: p.source_files,
        diagnostics: copy_diagnostics(&p.diagnostics),
    }
}

/// Parses the read manifests of a project.
///
/// A manifest that lies directly in the root and cannot be read or parsed is
/// fatal; any other such manifest is skipped with a warning.
#[verifier::loop_isolation(false)]
pub fn read_manifests(root: &str, inputs: Vec<ManifestInput>) -> (r: Result<(Vec<Manifest>, Vec<Diagnostic>), ScanError>)
    ensures
        r is Err <==> root_manifest_fails(inputs@, root@),
        r matches Ok(ok) ==> manifest_views(ok.0@) == parsed_manifests(inputs@, inputs@.len() as int)
            && ok.1@.len() == failed_count(inputs@, inputs@.len() as int)
            && ok.1@.len() == failed_paths(inputs@, inputs@.len() as int).len()
            && forall|j: int|
                0 <= j < ok.1@.len() ==> skip_warning(
                    #[trigger] ok.1@[j]@,
                    failed_paths(inputs@, inputs@.len() as int)[j],
                ),
{
    let ghost iv = inputs@;
    let mut manifests: Vec<Manifest> = Vec::new();
    let mut diagnostics: Vec<Diagnostic> = Vec::new();
    let mut rest = inputs;
    let n = rest.len();
    let mut rev: Vec<ManifestInput> = Vec::new();
    while rest.len() > 0
        invariant
            rest@.len() + rev@.len() == n,
            n == iv.len(),
            forall|k: int| 0 <= k < rest@.len() ==> #[trigger] rest@[k] == iv[k],
            forall|k: int| 0 <= k < rev@.len() ==> #[trigger] rev@[k] == iv[n - 1 - k],
        decreases rest@.len(),
    {
        let x = rest.pop().unwrap();
        rev.push(x);
    }
    let mut i: usize = 0;
    while rev.len() > 0
        invariant
            rev@.len() + i == n,
            n == iv.len(),
            forall|k: int| 0 <= k < rev@.len() ==> #[trigger] rev@[k] == iv[n - 1 - k],
            manifest_views(manifests@) == parsed_manifests(iv, i as int),
            diagnostics@.len() == failed_count(iv, i as int),
            diagnostics@.len() == failed_paths(iv, i as int).len(),
            forall|j: int| 0 <= j < diagnostics@.len() ==> skip_warning(#[trigger] diagnostics@[j]@, failed_paths(iv, i as int)[j]),
            forall|k: int|
                0 <= k < i ==> !(#[trigger] input_manifest(iv[k]) is None && is_root_manifest(
                    input_path(iv[k]),
                    root@,
                )),
        decreases rev@.len(),
    {
        let input = rev.pop().unwrap();
        assert(input == iv[i as int]);
        let ghost mv = manifest_views(manifests@);
        let (p, result) = match input {
            ManifestInput::Text { path, content } => {
                let r = manifest::parse_manifest(path.as_str(), content.as_str());
                (path, r)
            },
            ManifestInput::Unreadable { path, error } => {
                let e = ScanError::io(path.as_str(), error);
                (path, Err(e))
            },
        };
        assert(p@ == input_path(iv[i as int]));
        match result {
            Ok(m) => {
                assert(input_manifest(iv[i as int]) == Some(manifest_view(m)));
                manifests.push(m);
                assert(manifest_views(manifests@) =~= mv.push(manifest_view(m)));
            },
            Err(err) => {
                assert(input_manifest(iv[i as int]) is None);
                if is_root_manifest_exec(p.as_str(), root) {
                    assert(input_manifest(iv[i as int]) is None && is_root_manifest(input_path(iv[i as int]), root@));
                    return Err(err);
                }
                let msg = text::concat2("skipping unreadable manifest: ", err.display_text().as_str());
                let ghost pv = p@;
                let d = Diagnostic::warning(msg, Some(p));
                proof {
                    reveal_strlit("skipping unreadable manifest: ");
                    assert(d@.message.subrange(0, 30) =~= "skipping unreadable manifest: "@);
                }
                diagnostics.push(d);
            },
        }
        i = i + 1;
    }
    Ok((manifests, diagnostics))
}

/// Assembles a loaded project from its parsed manifests and read sources:
/// sources are parsed under their crate roots, Soroban evidence is gathered
/// from the manifests and the sources, and the project is classified.
pub fn assemble_project(
    root: &str,
    manifests: Vec<Manifest>,
    manifest_diagnostics: Vec<Diagnostic>,
    inputs: &Vec<SourceInput>,
) -> (r: LoadedProject)
    ensures
        r.project.root@ == root@,
        r.project.manifests == manifests,
        r.project.source_files == inputs@.len(),
        source_views(r.sources@) == source::load_spec(
            inputs@,
            source::manifest_dirs(manifests@),
            root@,
            inputs@.len() as int,
        ).0,
        diagnostic_views(r.project.diagnostics@) == diagnostic_views(manifest_diagnostics@)
            + source::load_spec(inputs@, source::manifest_dirs(manifests@), root@, inputs@.len() as int).1,
        r.project.soroban.contract_macros_found == source::any_definition_in(source_views(r.sources@)),
        r.project.soroban.has_sdk_dependency == soroban::manifests_have_sdk(manifests@, manifests@.len() as int),
        crate::order::strictly_sorted_texts(crate::finding::views(r.project.soroban.sdk_versions@)),
        forall|v: Seq<char>|
            #![trigger crate::finding::views(r.project.soroban.sdk_versions@).contains(v)]
            crate::finding::views(r.project.soroban.sdk_versions@).contains(v) <==> soroban::manifests_sdk_versions(
                manifests@,
                manifests@.len() as int,
            ).contains(v),
        forall|e: Seq<char>|
            #![trigger crate::finding::views(r.project.soroban.evidence@).contains(e)]
            crate::finding::views(r.project.soroban.evidence@).contains(e) <==> (soroban::manifests_sdk_evidence(
                manifests@,
                manifests@.len() as int,
            ).contains(e) || source::definition_evidence_in(source_views(r.sources@), e)),
        crate::order::strictly_sorted_texts(crate::finding::views(r.project.soroban.evidence@)),
        r.project.kind == soroban::classify_spec(r.project.soroban),
{
    let (sources, source_diagnostics) = source::load_sources_from(inputs, &manifests, root);
    let mut diagnostics = manifest_diagnostics;
    let ghost d0 = diagnostic_views(diagnostics@);
    let mut j: usize = 0;
    let mut sd = source_diagnostics;
    let mut rev: Vec<Diagnostic> = Vec::new();
    let m = sd.len();
    let ghost sv = diagnostic_views(sd@);
    while sd.len() > 0
        invariant
            sd@.len() + rev@.len() == m,
            m == sv.len(),
            forall|k: int| 0 <= k < sd@.len() ==> (#[trigger] sd@[k])@ == sv[k],
            forall|k: int| 0 <= k < rev@.len() ==> (#[trigger] rev@[k])@ == sv[m - 1 - k],
        decreases sd@.len(),
    {
        let x = sd.pop().unwrap();
        rev.push(x);
    }
    while rev.len() > 0
        invariant
            rev@.len() + j == m,
            m == sv.len(),
            forall|k: int| 0 <= k < rev@.len() ==> (#[trigger] rev@[k])@ == sv[m - 1 - k],
            diagnostic_views(diagnostics@) == d0 + sv.take(j as int),
        decreases rev@.len(),
    {
        let x = rev.pop().unwrap();
        let ghost b = diagnostic_views(diagnostics@);
        let ghost xv = x@;
        diagnostics.push(x);
        assert(diagnostic_views(diagnostics@) =~= b.push(xv));
        j = j + 1;
        assert(sv.take(j as int) =~= sv.take(j - 1).push(sv[j - 1]));
    }
    assert(sv.take(m as int) =~= sv);
    let ghost ms = manifests@;
    let info = soroban::analyze_manifests(manifests.as_slice());
    let kind = soroban::classify(&info);
    let mut project = Project {
        root: text::owned(root),
        kind,
        manifests,
        soroban: info,
        source_files: inputs.len(),
        diagnostics,
    };
    let ghost before = project.soroban;
    source::apply_source_evidence(&mut project, &sources);
    assert(project.manifests@ == ms);
    assert forall|e: Seq<char>|
        crate::finding::views(project.soroban.evidence@).contains(e) <==> (soroban::manifests_sdk_evidence(
            ms,
            ms.len() as int,
        ).contains(e) || source::definition_evidence_in(source_views(sources@), e)) by {
        assert(crate::finding::views(before.evidence@).contains(e) <==> soroban::manifests_sdk_evidence(
            ms,
            ms.len() as int,
        ).contains(e));
    }
    LoadedProject { project, sources }
}

} // verus!
