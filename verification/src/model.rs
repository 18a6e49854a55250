//! Project metadata model.
//!
//! These types describe what the scanner discovered about a target project.
use vstd::prelude::*;

use crate::finding::views;
use crate::path;
use crate::text;

verus! {

/// How confidently a project was identified as a Soroban project.
#[derive(Debug, Clone, Copy, PartialEq, Eq, Structural)]
pub enum ProjectKind {
    /// Ordinary Rust project with no evidence of Soroban.
    GenericRust,
    /// Depends on Soroban tooling, but no contract definitions were found.
    LikelySoroban,
    /// Contains concrete Soroban contract definitions or SDK usage.
    ConfirmedSoroban,
}

/// Stable name of a project kind.
pub open spec fn project_kind_name(k: ProjectKind) -> Seq<char> {
    match k {
        ProjectKind::GenericRust => "generic_rust"@,
        ProjectKind::LikelySoroban => "likely_soroban"@,
        ProjectKind::ConfirmedSoroban => "confirmed_soroban"@,
    }
}

impl ProjectKind {
    /// Stable lowercase name used in output.
    pub fn as_str(self) -> (r: &'static str)
        ensures
            r@ == project_kind_name(self),
    {
        match self {
            ProjectKind::GenericRust => "generic_rust",
            ProjectKind::LikelySoroban => "likely_soroban",
            ProjectKind::ConfirmedSoroban => "confirmed_soroban",
        }
    }
}

/// Which dependency table a dependency came from.
#[derive(Debug, Clone, Copy, PartialEq, Eq, Structural)]
pub enum DepKind {
    /// `[dependencies]`
    Normal,
    /// `[dev-dependencies]`
    Dev,
    /// `[build-dependencies]`
    Build,
}

/// Where a dependency is sourced from.
#[derive(Debug, Clone, PartialEq, Eq)]
pub enum DepSource {
    /// A registry (crates.io), optionally with an explicit registry name.
    Registry {
        /// Registry name, if one was specified.
        registry: Option<String>,
    },
    /// A local path dependency.
    Path {
        /// Raw path value from the manifest.
        path: String,
    },
    /// A git dependency.
    Git {
        /// Git URL.
        url: String,
    },
    /// Inherited from the workspace.
    Workspace,
    /// Could not be determined.
    Unknown,
}

/// A single dependency entry.
#[derive(Debug, Clone, PartialEq, Eq)]
pub struct Dependency {
    /// Dependency name.
    pub name: String,
    /// Requested version string, if any.
    pub version: Option<String>,
    /// Dependency source.
    pub source: DepSource,
    /// Which dependency table it came from.
    pub kind: DepKind,
    /// Whether the dependency is optional.
    pub optional: bool,
}

/// `[package]` metadata.
#[derive(Debug, Clone, PartialEq, Eq)]
pub struct PackageInfo {
    /// Crate name.
    pub name: String,
    /// Crate version.
    pub version: Option<String>,
    /// Rust edition, if specified.
    pub edition: Option<String>,
}

/// `[workspace]` metadata.
#[derive(Debug, Clone, PartialEq, Eq)]
pub struct WorkspaceInfo {
    /// Declared workspace member globs.
    pub members: Vec<String>,
    /// Workspace resolver version, if specified.
    pub resolver: Option<String>,
}

/// A parsed `Cargo.toml`.
#[derive(Debug, Clone, PartialEq, Eq)]
pub struct Manifest {
    /// Path to the manifest file.
    pub path: String,
    /// `[package]` section, if this is a package manifest.
    pub package: Option<PackageInfo>,
    /// `[workspace]` section, if this is a workspace root.
    pub workspace: Option<WorkspaceInfo>,
    /// All dependencies declared across dependency tables.
    pub dependencies: Vec<Dependency>,
}

/// The names of a list of dependencies.
pub open spec fn dep_names(ds: Seq<Dependency>) -> Seq<Seq<char>> {
    ds.map_values(|d: Dependency| d.name@)
}

/// Human-readable label of a manifest: its package name, else its directory,
/// else its path.
pub open spec fn manifest_label(m: Manifest) -> Seq<char> {
    match m.package {
        Some(p) => p.name@,
        None => match path::parent_spec(m.path@) {
            Some(d) => d,
            None => m.path@,
        },
    }
}

impl Manifest {
    /// Returns true if this manifest declares a workspace.
    pub fn is_workspace_root(&self) -> (r: bool)
        ensures
            r == self.workspace.is_some(),
    {
        self.workspace.is_some()
    }

    /// Finds the first dependency with the given name across all tables.
    pub fn dependency(&self, name: &str) -> (r: Option<&Dependency>)
        ensures
            match r {
                Some(d) => exists|i: int|
                    0 <= i < self.dependencies@.len() && self.dependencies@[i] == *d
                        && d.name@ == name@ && forall|j: int|
                        0 <= j < i ==> #[trigger] self.dependencies@[j].name@ != name@,
                None => forall|j: int|
                    0 <= j < self.dependencies@.len() ==> #[trigger] self.dependencies@[j].name@
                        != name@,
            },
    {
        let mut i: usize = 0;
        while i < self.dependencies.len()
            invariant
                i <= self.dependencies@.len(),
                forall|j: int| 0 <= j < i ==> #[trigger] self.dependencies@[j].name@ != name@,
            decreases self.dependencies@.len() - i,
        {
            if text::str_eq(self.dependencies[i].name.as_str(), name) {
                return Some(&self.dependencies[i]);
            }
            i = i + 1;
        }
        None
    }

    /// Human-readable crate label for diagnostics.
    pub fn label(&self) -> (r: String)
        ensures
            r@ == manifest_label(*self),
    {
        match &self.package {
            Some(p) => p.name.clone(),
            None => match path::parent(self.path.as_str()) {
                Some(d) => d,
                None => self.path.clone(),
            },
        }
    }
}

/// Evidence and conclusions about a project's Soroban relevance.
#[derive(Debug, Clone, PartialEq, Eq)]
pub struct SorobanInfo {
    /// A Soroban SDK dependency was found.
    pub has_sdk_dependency: bool,
    /// A Soroban contract macro (`#[contract]`/`#[contractimpl]`) was found.
    pub contract_macros_found: bool,
    /// Detected Soroban SDK version requirements.
    pub sdk_versions: Vec<String>,
    /// Human-readable evidence supporting classification.
    pub evidence: Vec<String>,
}

impl Default for SorobanInfo {
    fn default() -> (r: Self)
        ensures
            !r.has_sdk_dependency,
            !r.contract_macros_found,
            r.sdk_versions@.len() == 0,
            r.evidence@.len() == 0,
    {
        SorobanInfo {
            has_sdk_dependency: false,
            contract_macros_found: false,
            sdk_versions: Vec::new(),
            evidence: Vec::new(),
        }
    }
}

/// Severity of a scanner diagnostic (not a security finding).
#[derive(Debug, Clone, Copy, PartialEq, Eq, Structural)]
pub enum DiagnosticLevel {
    /// Informational.
    Info,
    /// Something was skipped or is suspicious.
    Warning,
    /// Something could not be processed.
    Error,
}

/// A non-fatal diagnostic produced while analyzing a project.
#[derive(Debug, Clone, PartialEq, Eq)]
pub struct Diagnostic {
    /// Diagnostic severity.
    pub level: DiagnosticLevel,
    /// Human-readable message.
    pub message: String,
    /// Related file, if any.
    pub path: Option<String>,
    /// Related line, if any.
    pub line: Option<usize>,
}

/// Abstract view of a [`Diagnostic`].
pub struct DiagnosticView {
    pub level: DiagnosticLevel,
    pub message: Seq<char>,
    pub path: Option<Seq<char>>,
    pub line: Option<usize>,
}

/// The view of an optional string.
pub open spec fn opt_view(o: Option<String>) -> Option<Seq<char>> {
    match o {
        Some(s) => Some(s@),
        None => None,
    }
}

impl View for Diagnostic {
    type V = DiagnosticView;

    open spec fn view(&self) -> DiagnosticView {
        DiagnosticView {
            level: self.level,
            message: self.message@,
            path: opt_view(self.path),
            line: self.line,
        }
    }
}

impl Diagnostic {
    /// Creates a warning diagnostic.
    pub fn warning(message: String, path: Option<String>) -> (r: Self)
        ensures
            r.level == DiagnosticLevel::Warning,
            r.message == message,
            r.path == path,
            r.line.is_none(),
    {
        Diagnostic { level: DiagnosticLevel::Warning, message, path, line: None }
    }

    /// Creates an error diagnostic.
    pub fn error(message: String, path: Option<String>) -> (r: Self)
        ensures
            r.level == DiagnosticLevel::Error,
            r.message == message,
            r.path == path,
            r.line.is_none(),
    {
        Diagnostic { level: DiagnosticLevel::Error, message, path, line: None }
    }
}

/// Top-level project metadata discovered by the scanner.
#[derive(Debug, Clone, PartialEq, Eq)]
pub struct Project {
    /// Root directory of the scanned project.
    pub root: String,
    /// Overall classification.
    pub kind: ProjectKind,
    /// All discovered manifests.
    pub manifests: Vec<Manifest>,
    /// Soroban-specific evidence.
    pub soroban: SorobanInfo,
    /// Number of Rust source files discovered.
    pub source_files: usize,
    /// Non-fatal diagnostics collected during analysis.
    pub diagnostics: Vec<Diagnostic>,
}

} // verus!
