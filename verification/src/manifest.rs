//! `Cargo.toml` parsing.
//!
//! Parsing is purely syntactic: manifests are treated as untrusted data and
//! are never used to execute or fetch anything.
use vstd::prelude::*;

use crate::error::ScanError;
use crate::finding::views;
use crate::model::{DepKind, DepSource, Dependency, Manifest, PackageInfo, WorkspaceInfo};
use crate::order::lex_le;
use crate::text::{self, int_text};

verus! {

/// A TOML value as plain data (floats and datetimes are kept as `Other`).
#[derive(Debug)]
pub enum TomlValue {
    /// A string.
    Str(String),
    /// An integer.
    Int(i64),
    /// A boolean.
    Bool(bool),
    /// An array.
    Array(Vec<TomlValue>),
    /// A table, in the order the parser yields its entries.
    Table(Vec<(String, TomlValue)>),
    /// A float or datetime.
    Other,
}

#[verifier::external_type_specification]
#[verifier::external_body]
pub struct ExTomlValue(toml::Value);

/// The plain form of a parsed TOML value.
#[verifier::external_body]
fn plain(v: &toml::Value) -> TomlValue {
    match v {
        toml::Value::String(s) => TomlValue::Str(s.clone()),
        toml::Value::Integer(i) => TomlValue::Int(*i),
        toml::Value::Boolean(b) => TomlValue::Bool(*b),
        toml::Value::Array(a) => TomlValue::Array(a.iter().map(plain).collect()),
        toml::Value::Table(t) => TomlValue::Table(t.iter().map(|(k, x)| (k.clone(), plain(x))).collect()),
        toml::Value::Float(_) | toml::Value::Datetime(_) => TomlValue::Other,
    }
}

/// What `toml` makes of a document: its value, or its error text.
pub uninterp spec fn toml_document(content: Seq<char>) -> Result<TomlValue, Seq<char>>;

/// Parses a TOML document.
///
/// Calls `<toml::Value as FromStr>::from_str` (`toml::from_str`) and converts
/// the value to plain data; the result is named `toml_document`, a function of
/// the text alone.
#[verifier::external_body]
fn parse_toml(content: &str) -> (r: Result<TomlValue, String>)
    ensures
        match r {
            Ok(v) => toml_document(content@) == Ok::<TomlValue, Seq<char>>(v),
            Err(e) => toml_document(content@) == Err::<TomlValue, Seq<char>>(e@),
        },
{
    match content.parse::<toml::Value>() {
        Ok(v) => Ok(plain(&v)),
        Err(e) => Err(e.to_string()),
    }
}

/// The value of the first entry with a key.
pub open spec fn lookup(t: Seq<(String, TomlValue)>, key: Seq<char>) -> Option<TomlValue>
    decreases t.len(),
{
    if t.len() == 0 {
        None
    } else if t[0].0@ == key {
        Some(t[0].1)
    } else {
        lookup(t.drop_first(), key)
    }
}

/// A string value.
pub open spec fn str_of(v: Option<TomlValue>) -> Option<Seq<char>> {
    match v {
        Some(TomlValue::Str(s)) => Some(s@),
        _ => None,
    }
}

/// The value of a dependency source.
pub enum SourceValue {
    Registry(Option<Seq<char>>),
    Path(Seq<char>),
    Git(Seq<char>),
    Workspace,
    Unknown,
}

/// The value of a [`Dependency`].
pub struct DependencyView {
    pub name: Seq<char>,
    pub version: Option<Seq<char>>,
    pub source: SourceValue,
    pub kind: DepKind,
    pub optional: bool,
}

/// The value of a dependency source.
pub open spec fn source_view(s: DepSource) -> SourceValue {
    match s {
        DepSource::Registry { registry } => SourceValue::Registry(crate::model::opt_view(registry)),
        DepSource::Path { path } => SourceValue::Path(path@),
        DepSource::Git { url } => SourceValue::Git(url@),
        DepSource::Workspace => SourceValue::Workspace,
        DepSource::Unknown => SourceValue::Unknown,
    }
}

/// The value of a dependency.
pub open spec fn dependency_view(d: Dependency) -> DependencyView {
    DependencyView {
        name: d.name@,
        version: crate::model::opt_view(d.version),
        source: source_view(d.source),
        kind: d.kind,
        optional: d.optional,
    }
}

/// The values of a list of dependencies.
pub open spec fn dependency_views(v: Seq<Dependency>) -> Seq<DependencyView> {
    v.map_values(|d: Dependency| dependency_view(d))
}

/// The dependency a manifest entry `name = spec` declares.
pub open spec fn dependency_of(name: Seq<char>, spec: TomlValue, kind: DepKind) -> DependencyView {
    match spec {
        TomlValue::Str(v) => DependencyView {
            name,
            version: Some(v@),
            source: SourceValue::Registry(None),
            kind,
            optional: false,
        },
        TomlValue::Table(t) => DependencyView {
            name,
            version: str_of(lookup(t@, "version"@)),
            source: if lookup(t@, "workspace"@) == Some(TomlValue::Bool(true)) {
                SourceValue::Workspace
            } else if str_of(lookup(t@, "path"@)) is Some {
                SourceValue::Path(str_of(lookup(t@, "path"@)).unwrap())
            } else if str_of(lookup(t@, "git"@)) is Some {
                SourceValue::Git(str_of(lookup(t@, "git"@)).unwrap())
            } else if str_of(lookup(t@, "registry"@)) is Some {
                SourceValue::Registry(str_of(lookup(t@, "registry"@)))
            } else {
                SourceValue::Registry(None)
            },
            kind,
            optional: match lookup(t@, "optional"@) {
                Some(TomlValue::Bool(b)) => b,
                _ => false,
            },
        },
        _ => DependencyView { name, version: None, source: SourceValue::Unknown, kind, optional: false },
    }
}

/// The dependencies of a table's entries.
pub open spec fn entries_deps(t: Seq<(String, TomlValue)>, kind: DepKind) -> Seq<DependencyView>
    decreases t.len(),
{
    if t.len() == 0 {
        Seq::empty()
    } else {
        entries_deps(t.drop_last(), kind).push(dependency_of(t.last().0@, t.last().1, kind))
    }
}

/// The dependencies of the sub-table `key` of a table (if it is a table).
pub open spec fn table_deps(t: Seq<(String, TomlValue)>, key: Seq<char>, kind: DepKind) -> Seq<DependencyView> {
    match lookup(t, key) {
        Some(TomlValue::Table(d)) => entries_deps(d@, kind),
        _ => Seq::empty(),
    }
}

/// The three dependency tables of a table, in order.
pub open spec fn all_tables_deps(t: Seq<(String, TomlValue)>) -> Seq<DependencyView> {
    table_deps(t, "dependencies"@, DepKind::Normal) + table_deps(t, "dev-dependencies"@, DepKind::Dev)
        + table_deps(t, "build-dependencies"@, DepKind::Build)
}

/// The dependencies of the `[target.<cfg>]` tables.
pub open spec fn target_deps(targets: Seq<(String, TomlValue)>) -> Seq<DependencyView>
    decreases targets.len(),
{
    if targets.len() == 0 {
        Seq::empty()
    } else {
        target_deps(targets.drop_last()) + match targets.last().1 {
            TomlValue::Table(t) => all_tables_deps(t@),
            _ => Seq::empty(),
        }
    }
}

/// Every dependency declared in a manifest, in table order.
pub open spec fn declared_deps(root: Seq<(String, TomlValue)>) -> Seq<DependencyView> {
    all_tables_deps(root) + (match lookup(root, "workspace"@) {
        Some(TomlValue::Table(ws)) => table_deps(ws@, "dependencies"@, DepKind::Normal),
        _ => Seq::empty(),
    }) + match lookup(root, "target"@) {
        Some(TomlValue::Table(ts)) => target_deps(ts@),
        _ => Seq::empty(),
    }
}

/// Inserts `x` after every dependency whose name is not after its name.
pub open spec fn insert_dep(s: Seq<DependencyView>, x: DependencyView) -> Seq<DependencyView>
    decreases s.len(),
{
    if s.len() == 0 {
        seq![x]
    } else if lex_le(s.last().name, x.name) {
        s.push(x)
    } else {
        insert_dep(s.drop_last(), x).push(s.last())
    }
}

/// Dependencies stably sorted by name.
pub open spec fn sort_deps(s: Seq<DependencyView>) -> Seq<DependencyView>
    decreases s.len(),
{
    if s.len() == 0 {
        Seq::empty()
    } else {
        insert_dep(sort_deps(s.drop_last()), s.last())
    }
}

/// Drops each dependency with the same name and kind as the one before it.
pub open spec fn dedup_deps(s: Seq<DependencyView>) -> Seq<DependencyView>
    decreases s.len(),
{
    if s.len() == 0 {
        Seq::empty()
    } else {
        let r = dedup_deps(s.drop_last());
        if r.len() > 0 && r.last().name == s.last().name && r.last().kind == s.last().kind {
            r
        } else {
            r.push(s.last())
        }
    }
}

/// The value of `[package]` metadata.
pub struct PackageView {
    pub name: Seq<char>,
    pub version: Option<Seq<char>>,
    pub edition: Option<Seq<char>>,
}

/// The value of `[workspace]` metadata.
pub struct WorkspaceView {
    pub members: Seq<Seq<char>>,
    pub resolver: Option<Seq<char>>,
}

/// The value of a manifest.
pub struct ManifestView {
    pub path: Seq<char>,
    pub package: Option<PackageView>,
    pub workspace: Option<WorkspaceView>,
    pub dependencies: Seq<DependencyView>,
}

/// The package section of a manifest: a table with a string `name`.
pub open spec fn package_of(v: Option<TomlValue>) -> Option<PackageView> {
    match v {
        Some(TomlValue::Table(t)) => match str_of(lookup(t@, "name"@)) {
            Some(name) => Some(
                PackageView {
                    name,
                    version: str_of(lookup(t@, "version"@)),
                    edition: str_of(lookup(t@, "edition"@)),
                },
            ),
            None => None,
        },
        _ => None,
    }
}

/// The string items of an array, in order.
pub open spec fn string_items(a: Seq<TomlValue>) -> Seq<Seq<char>>
    decreases a.len(),
{
    if a.len() == 0 {
        Seq::empty()
    } else {
        let r = string_items(a.drop_last());
        match a.last() {
            TomlValue::Str(s) => r.push(s@),
            _ => r,
        }
    }
}

/// The workspace section of a manifest (any table).
pub open spec fn workspace_of(v: Option<TomlValue>) -> Option<WorkspaceView> {
    match v {
        Some(TomlValue::Table(t)) => Some(
            WorkspaceView {
                members: match lookup(t@, "members"@) {
                    Some(TomlValue::Array(a)) => string_items(a@),
                    _ => Seq::empty(),
                },
                resolver: match lookup(t@, "resolver"@) {
                    Some(TomlValue::Str(s)) => Some(s@),
                    Some(TomlValue::Int(i)) => Some(int_text(i as int)),
                    _ => None,
                },
            },
        ),
        _ => None,
    }
}

/// The manifest described by a root table.
pub open spec fn manifest_spec(path: Seq<char>, root: Seq<(String, TomlValue)>) -> ManifestView {
    ManifestView {
        path,
        package: package_of(lookup(root, "package"@)),
        workspace: workspace_of(lookup(root, "workspace"@)),
        dependencies: dedup_deps(sort_deps(declared_deps(root))),
    }
}

/// The value of a parsed manifest.
pub open spec fn manifest_view(m: Manifest) -> ManifestView {
    ManifestView {
        path: m.path@,
        package: match m.package {
            Some(p) => Some(
                PackageView {
                    name: p.name@,
                    version: crate::model::opt_view(p.version),
                    edition: crate::model::opt_view(p.edition),
                },
            ),
            None => None,
        },
        workspace: match m.workspace {
            Some(w) => Some(WorkspaceView { members: views(w.members@), resolver: crate::model::opt_view(w.resolver) }),
            None => None,
        },
        dependencies: dependency_views(m.dependencies@),
    }
}

/// The value of the first entry with a key.
fn lookup_exec<'a>(t: &'a Vec<(String, TomlValue)>, key: &str) -> (r: Option<&'a TomlValue>)
    ensures
        match r {
            Some(v) => lookup(t@, key@) == Some(*v),
            None => lookup(t@, key@) is None,
        },
{
    let mut i: usize = 0;
    assert(t@.skip(0) =~= t@);
    while i < t.len()
        invariant
            i <= t@.len(),
            lookup(t@, key@) == lookup(t@.skip(i as int), key@),
        decreases t@.len() - i,
    {
        assert(t@.skip(i as int).drop_first() =~= t@.skip(i + 1));
        if text::str_eq(t[i].0.as_str(), key) {
            return Some(&t[i].1);
        }
        i = i + 1;
    }
    None
}

fn str_exec(v: Option<&TomlValue>) -> (r: Option<String>)
    ensures
        crate::model::opt_view(r) == str_of(
            match v {
                Some(x) => Some(*x),
                None => None,
            },
        ),
{
    match v {
        Some(TomlValue::Str(s)) => Some(s.clone()),
        _ => None,
    }
}

/// The value behind an optional reference.
pub open spec fn opt_deref(v: Option<&TomlValue>) -> Option<TomlValue> {
    match v {
        Some(x) => Some(*x),
        None => None,
    }
}

/// Parses one dependency entry `name = spec`.
pub fn parse_dependency(name: &str, spec: &TomlValue, kind: DepKind) -> (r: Dependency)
    ensures
        dependency_view(r) == dependency_of(name@, *spec, kind),
{
    match spec {
        TomlValue::Str(version) => Dependency {
            name: text::owned(name),
            version: Some(version.clone()),
            source: DepSource::Registry { registry: None },
            kind,
            optional: false,
        },
        TomlValue::Table(t) => {
            let version = str_exec(lookup_exec(t, "version"));
            let optional = match lookup_exec(t, "optional") {
                Some(TomlValue::Bool(b)) => *b,
                _ => false,
            };
            let ws = match lookup_exec(t, "workspace") {
                Some(TomlValue::Bool(b)) => *b,
                _ => false,
            };
            proof {
                if lookup(t@, "workspace"@) == Some(TomlValue::Bool(true)) {
                    assert(ws);
                }
            }
            let source = if ws {
                DepSource::Workspace
            } else {
                match str_exec(lookup_exec(t, "path")) {
                    Some(p) => DepSource::Path { path: p },
                    None => match str_exec(lookup_exec(t, "git")) {
                        Some(u) => DepSource::Git { url: u },
                        None => match str_exec(lookup_exec(t, "registry")) {
                            Some(g) => DepSource::Registry { registry: Some(g) },
                            None => DepSource::Registry { registry: None },
                        },
                    },
                }
            };
            Dependency { name: text::owned(name), version, source, kind, optional }
        },
        _ => Dependency {
            name: text::owned(name),
            version: None,
            source: DepSource::Unknown,
            kind,
            optional: false,
        },
    }
}

/// Appends the dependencies of a table's entries.
fn push_entries(t: &Vec<(String, TomlValue)>, kind: DepKind, out: &mut Vec<Dependency>)
    ensures
        dependency_views(final(out)@) == dependency_views(old(out)@) + entries_deps(t@, kind),
{
    let ghost base = dependency_views(out@);
    let mut i: usize = 0;
    while i < t.len()
        invariant
            i <= t@.len(),
            dependency_views(out@) == base + entries_deps(t@.take(i as int), kind),
        decreases t@.len() - i,
    {
        assert(t@.take(i + 1).drop_last() =~= t@.take(i as int));
        let d = parse_dependency(t[i].0.as_str(), &t[i].1, kind);
        let ghost b = dependency_views(out@);
        out.push(d);
        assert(dependency_views(out@) =~= b.push(dependency_view(d)));
        i = i + 1;
        assert(dependency_views(out@) =~= base + entries_deps(t@.take(i as int), kind));
    }
    assert(t@.take(t@.len() as int) =~= t@);
}

/// Appends the dependencies of the sub-table `key`.
fn push_table(t: &Vec<(String, TomlValue)>, key: &str, kind: DepKind, out: &mut Vec<Dependency>)
    ensures
        dependency_views(final(out)@) == dependency_views(old(out)@) + table_deps(t@, key@, kind),
{
    match lookup_exec(t, key) {
        Some(TomlValue::Table(d)) => push_entries(d, kind, out),
        _ => {
            assert(dependency_views(out@) =~= dependency_views(out@) + table_deps(t@, key@, kind));
        },
    }
}

/// Appends the three dependency tables of a table.
fn push_all_tables(t: &Vec<(String, TomlValue)>, out: &mut Vec<Dependency>)
    ensures
        dependency_views(final(out)@) == dependency_views(old(out)@) + all_tables_deps(t@),
{
    let ghost base = dependency_views(out@);
    push_table(t, "dependencies", DepKind::Normal, out);
    push_table(t, "dev-dependencies", DepKind::Dev, out);
    push_table(t, "build-dependencies", DepKind::Build, out);
    assert(dependency_views(out@) =~= base + all_tables_deps(t@));
}

proof fn lemma_insert_dep_at(s: Seq<DependencyView>, x: DependencyView, j: int)
    requires
        0 <= j <= s.len(),
        forall|k: int| j <= k < s.len() ==> !lex_le(#[trigger] s[k].name, x.name),
        j > 0 ==> lex_le(s[j - 1].name, x.name),
    ensures
        insert_dep(s, x) == s.insert(j, x),
    decreases s.len(),
{
    if s.len() == 0 {
        assert(s.insert(j, x) =~= seq![x]);
    } else if j == s.len() {
        assert(s.insert(j, x) =~= s.push(x));
    } else {
        assert(!lex_le(s[s.len() - 1].name, x.name));
        lemma_insert_dep_at(s.drop_last(), x, j);
        assert(s.drop_last().insert(j, x).push(s.last()) =~= s.insert(j, x));
    }
}

/// Sorts dependencies by name (stably), then drops consecutive repeats of a
/// name and kind.
fn sort_dedup(v: Vec<Dependency>) -> (r: Vec<Dependency>)
    ensures
        dependency_views(r@) == dedup_deps(sort_deps(dependency_views(v@))),
{
    let ghost dv = dependency_views(v@);
    let mut sorted: Vec<Dependency> = Vec::new();
    let mut rest = v;
    let mut rev: Vec<Dependency> = Vec::new();
    let n = rest.len();
    while rest.len() > 0
        invariant
            rest@.len() + rev@.len() == n,
            n == dv.len(),
            forall|k: int| 0 <= k < rest@.len() ==> dependency_view(#[trigger] rest@[k]) == dv[k],
            forall|k: int| 0 <= k < rev@.len() ==> dependency_view(#[trigger] rev@[k]) == dv[n - 1 - k],
        decreases rest@.len(),
    {
        let x = rest.pop().unwrap();
        rev.push(x);
    }
    let mut i: usize = 0;
    while rev.len() > 0
        invariant
            rev@.len() + i == n,
            n == dv.len(),
            forall|k: int| 0 <= k < rev@.len() ==> dependency_view(#[trigger] rev@[k]) == dv[n - 1 - k],
            dependency_views(sorted@) == sort_deps(dv.take(i as int)),
        decreases rev@.len(),
    {
        let x = rev.pop().unwrap();
        assert(dependency_view(x) == dv[i as int]);
        assert(dv.take(i + 1).drop_last() =~= dv.take(i as int));
        let ghost sv = dependency_views(sorted@);
        let mut pos: usize = sorted.len();
        while pos > 0 && crate::order::compare_strs(sorted[pos - 1].name.as_str(), x.name.as_str()) > 0
            invariant
                pos <= sorted@.len(),
                sv == dependency_views(sorted@),
                forall|q: int| pos <= q < sv.len() ==> !lex_le(#[trigger] sv[q].name, x.name@),
            decreases pos,
        {
            proof {
                crate::order::lemma_lex_asymmetric(sv[pos - 1].name, x.name@);
                crate::order::lemma_lex_irreflexive(x.name@);
            }
            pos = pos - 1;
        }
        proof {
            if pos > 0 {
                crate::order::lemma_lex_total(sv[pos - 1].name, x.name@);
            }
            lemma_insert_dep_at(sv, dependency_view(x), pos as int);
        }
        let ghost xv = dependency_view(x);
        sorted.insert(pos, x);
        assert(dependency_views(sorted@) =~= sv.insert(pos as int, xv));
        i = i + 1;
    }
    assert(dv.take(n as int) =~= dv);
    let ghost srt = dependency_views(sorted@);
    let mut out: Vec<Dependency> = Vec::new();
    let mut rev2: Vec<Dependency> = Vec::new();
    let m = sorted.len();
    while sorted.len() > 0
        invariant
            sorted@.len() + rev2@.len() == m,
            m == srt.len(),
            forall|k: int| 0 <= k < sorted@.len() ==> dependency_view(#[trigger] sorted@[k]) == srt[k],
            forall|k: int| 0 <= k < rev2@.len() ==> dependency_view(#[trigger] rev2@[k]) == srt[m - 1 - k],
        decreases sorted@.len(),
    {
        let x = sorted.pop().unwrap();
        rev2.push(x);
    }
    let mut j: usize = 0;
    while rev2.len() > 0
        invariant
            rev2@.len() + j == m,
            m == srt.len(),
            forall|k: int| 0 <= k < rev2@.len() ==> dependency_view(#[trigger] rev2@[k]) == srt[m - 1 - k],
            dependency_views(out@) == dedup_deps(srt.take(j as int)),
        decreases rev2@.len(),
    {
        let x = rev2.pop().unwrap();
        assert(dependency_view(x) == srt[j as int]);
        assert(srt.take(j + 1).drop_last() =~= srt.take(j as int));
        let ghost ov = dependency_views(out@);
        let dup = out.len() > 0 && text::str_eq(out[out.len() - 1].name.as_str(), x.name.as_str())
            && out[out.len() - 1].kind == x.kind;
        if !dup {
            let ghost xv = dependency_view(x);
            out.push(x);
            assert(dependency_views(out@) =~= ov.push(xv));
        }
        j = j + 1;
    }
    assert(srt.take(m as int) =~= srt);
    out
}

/// The manifest described by a parsed TOML document.
pub fn manifest_from_toml(path: &str, value: &TomlValue) -> (r: Result<Manifest, ScanError>)
    ensures
        match value {
            TomlValue::Table(root) => r matches Ok(m) && manifest_view(m) == manifest_spec(path@, root@),
            _ => r matches Err(ScanError::Parse { path: p, message }) && p@ == path@ && message@
                == "Cargo.toml root is not a table"@,
        },
{
    let root = match value {
        TomlValue::Table(t) => t,
        _ => {
            return Err(ScanError::Parse {
                path: text::owned(path),
                message: text::owned("Cargo.toml root is not a table"),
            });
        },
    };
    let package = parse_package(lookup_exec(root, "package"));
    let workspace = parse_workspace(lookup_exec(root, "workspace"));
    let mut deps: Vec<Dependency> = Vec::new();
    push_all_tables(root, &mut deps);
    let ghost d1 = dependency_views(deps@);
    match lookup_exec(root, "workspace") {
        Some(TomlValue::Table(ws)) => push_table(ws, "dependencies", DepKind::Normal, &mut deps),
        _ => {},
    }
    let ghost d2 = dependency_views(deps@);
    match lookup_exec(root, "target") {
        Some(TomlValue::Table(ts)) => {
            let ghost base = dependency_views(deps@);
            let mut i: usize = 0;
            while i < ts.len()
                invariant
                    i <= ts@.len(),
                    dependency_views(deps@) == base + target_deps(ts@.take(i as int)),
                decreases ts@.len() - i,
            {
                assert(ts@.take(i + 1).drop_last() =~= ts@.take(i as int));
                let ghost b = dependency_views(deps@);
                match &ts[i].1 {
                    TomlValue::Table(t) => push_all_tables(t, &mut deps),
                    _ => {},
                }
                i = i + 1;
                assert(dependency_views(deps@) =~= base + target_deps(ts@.take(i as int)));
            }
            assert(ts@.take(ts@.len() as int) =~= ts@);
        },
        _ => {},
    }
    proof {
        assert(dependency_views(deps@) =~= declared_deps(root@));
    }
    let dependencies = sort_dedup(deps);
    Ok(Manifest { path: text::owned(path), package, workspace, dependencies })
}

fn parse_package(v: Option<&TomlValue>) -> (r: Option<PackageInfo>)
    ensures
        match r {
            Some(p) => package_of(opt_deref(v)) == Some(
                PackageView {
                    name: p.name@,
                    version: crate::model::opt_view(p.version),
                    edition: crate::model::opt_view(p.edition),
                },
            ),
            None => package_of(opt_deref(v)) is None,
        },
{
    match v {
        Some(TomlValue::Table(t)) => match str_exec(lookup_exec(t, "name")) {
            Some(name) => Some(
                PackageInfo {
                    name,
                    version: str_exec(lookup_exec(t, "version")),
                    edition: str_exec(lookup_exec(t, "edition")),
                },
            ),
            None => None,
        },
        _ => None,
    }
}

fn parse_workspace(v: Option<&TomlValue>) -> (r: Option<WorkspaceInfo>)
    ensures
        match r {
            Some(w) => workspace_of(opt_deref(v)) == Some(
                WorkspaceView { members: views(w.members@), resolver: crate::model::opt_view(w.resolver) },
            ),
            None => workspace_of(opt_deref(v)) is None,
        },
{
    match v {
        Some(TomlValue::Table(t)) => {
            let mut members: Vec<String> = Vec::new();
            match lookup_exec(t, "members") {
                Some(TomlValue::Array(a)) => {
                    let mut i: usize = 0;
                    while i < a.len()
                        invariant
                            i <= a@.len(),
                            views(members@) == string_items(a@.take(i as int)),
                        decreases a@.len() - i,
                    {
                        assert(a@.take(i + 1).drop_last() =~= a@.take(i as int));
                        match &a[i] {
                            TomlValue::Str(s) => {
                                let ghost b = views(members@);
                                members.push(s.clone());
                                assert(views(members@) =~= b.push(s@));
                            },
                            _ => {},
                        }
                        i = i + 1;
                    }
                    assert(a@.take(a@.len() as int) =~= a@);
                },
                _ => {
                    assert(views(members@) =~= Seq::<Seq<char>>::empty());
                },
            }
            let resolver = match lookup_exec(t, "resolver") {
                Some(TomlValue::Str(s)) => Some(s.clone()),
                Some(TomlValue::Int(i)) => Some(text::i64_to_string(*i)),
                _ => None,
            };
            Some(WorkspaceInfo { members, resolver })
        },
        _ => None,
    }
}

/// The message of a manifest that is not valid TOML.
pub open spec fn invalid_manifest_message(e: Seq<char>) -> Seq<char> {
    "invalid Cargo.toml: "@ + e
}

/// Parses a `Cargo.toml` from its raw text.
pub fn parse_manifest(path: &str, content: &str) -> (r: Result<Manifest, ScanError>)
    ensures
        match toml_document(content@) {
            Err(e) => r matches Err(ScanError::Parse { path: p, message }) && p@ == path@ && message@
                == invalid_manifest_message(e),
            Ok(TomlValue::Table(root)) => r matches Ok(m) && manifest_view(m) == manifest_spec(path@, root@),
            Ok(_) => r matches Err(ScanError::Parse { path: p, message }) && p@ == path@ && message@
                == "Cargo.toml root is not a table"@,
        },
{
    match parse_toml(content) {
        Ok(v) => manifest_from_toml(path, &v),
        Err(e) => Err(ScanError::Parse {
            path: text::owned(path),
            message: text::concat2("invalid Cargo.toml: ", e.as_str()),
        }),
    }
}

/// Copies an optional string.
fn copy_opt(o: &Option<String>) -> (r: Option<String>)
    ensures
        crate::model::opt_view(r) == crate::model::opt_view(*o),
{
    match o {
        Some(s) => Some(s.clone()),
        None => None,
    }
}

/// Copies a dependency.
fn copy_dependency(d: &Dependency) -> (r: Dependency)
    ensures
        dependency_view(r) == dependency_view(*d),
{
    let source = match &d.source {
        DepSource::Registry { registry } => DepSource::Registry { registry: copy_opt(registry) },
        DepSource::Path { path } => DepSource::Path { path: path.clone() },
        DepSource::Git { url } => DepSource::Git { url: url.clone() },
        DepSource::Workspace => DepSource::Workspace,
        DepSource::Unknown => DepSource::Unknown,
    };
    Dependency { name: d.name.clone(), version: copy_opt(&d.version), source, kind: d.kind, optional: d.optional }
}

/// Copies a manifest.
pub fn copy_manifest(m: &Manifest) -> (r: Manifest)
    ensures
        manifest_view(r) == manifest_view(*m),
{
    let package = match &m.package {
        Some(p) => Some(PackageInfo { name: p.name.clone(), version: copy_opt(&p.version), edition: copy_opt(&p.edition) }),
        None => None,
    };
    let workspace = match &m.workspace {
        Some(w) => Some(WorkspaceInfo { members: crate::finding::copy_strings(&w.members), resolver: copy_opt(&w.resolver) }),
        None => None,
    };
    let mut dependencies: Vec<Dependency> = Vec::new();
    let mut i: usize = 0;
    while i < m.dependencies.len()
        invariant
            i <= m.dependencies@.len(),
            dependency_views(dependencies@) == dependency_views(m.dependencies@).take(i as int),
        decreases m.dependencies@.len() - i,
    {
        let d = copy_dependency(&m.dependencies[i]);
        let ghost b = dependency_views(dependencies@);
        dependencies.push(d);
        assert(dependency_views(dependencies@) =~= b.push(dependency_view(d)));
        i = i + 1;
        assert(dependency_views(m.dependencies@).take(i as int) =~= dependency_views(m.dependencies@).take(i - 1).push(
            dependency_view(m.dependencies@[i - 1]),
        ));
    }
    assert(dependency_views(m.dependencies@).take(m.dependencies@.len() as int) =~= dependency_views(m.dependencies@));
    Manifest { path: m.path.clone(), package, workspace, dependencies }
}

/// Returns the conventional manifest path for a directory.
pub fn manifest_path(dir: &str) -> (r: String)
    ensures
        r@ == crate::path::join_spec(dir@, "Cargo.toml"@),
{
    crate::path::join(dir, "Cargo.toml")
}

} // verus!
