//! Soroban detection and classification.
//!
//! Classification is evidence-based and deliberately conservative: a plain Rust
//! project is never labeled Soroban without evidence.
//!
//! * [`ProjectKind::ConfirmedSoroban`] requires concrete contract definitions
//!   (`#[contract]` / `#[contractimpl]`).
//! * [`ProjectKind::LikelySoroban`] means a Soroban dependency is present but no
//!   contract definition was found (for example, a shared library).
//! * Everything else is [`ProjectKind::GenericRust`].
use vstd::prelude::*;

use crate::finding::views;
use crate::model::{Dependency, Manifest, ProjectKind, SorobanInfo};
use crate::order;
use crate::text;

verus! {

/// Canonical Soroban SDK crate name.
pub const SOROBAN_SDK: &'static str = "soroban-sdk";

/// Whether a crate name denotes Soroban tooling.
pub open spec fn soroban_dep_name(name: Seq<char>) -> bool {
    let n = text::replace_char(name, '_', '-');
    n == "soroban-sdk"@ || text::has_prefix(n, "soroban-"@) || text::has_prefix(n, "stellar-"@)
}

/// Returns true if `name` looks like a Soroban-related crate.
pub fn is_soroban_dependency(name: &str) -> (r: bool)
    ensures
        r == soroban_dep_name(name@),
{
    let normalized = text::replace_char_exec(name, '_', '-');
    let n = normalized.as_str();
    text::str_eq(n, SOROBAN_SDK) || text::starts_with(n, "soroban-") || text::starts_with(
        n,
        "stellar-",
    )
}

/// Strength of a Soroban attribute found in source.
#[derive(Debug, Clone, Copy, PartialEq, Eq, Structural)]
pub enum ContractAttrStrength {
    /// Defines a contract or its implementation (`contract`, `contractimpl`).
    Definition,
    /// Soroban-related but not a contract definition (`contracttype`,
    /// `contractclient`, `contracterror`, `contractstorage`).
    Related,
}

/// The strength of an attribute path.
pub open spec fn attr_strength(p: Seq<char>) -> Option<ContractAttrStrength> {
    if p == "contract"@ || p == "contractimpl"@ {
        Some(ContractAttrStrength::Definition)
    } else if p == "contracttype"@ || p == "contractclient"@ || p == "contracterror"@ || p
        == "contractstorage"@ {
        Some(ContractAttrStrength::Related)
    } else {
        None
    }
}

/// Classifies a Soroban attribute path.
pub fn contract_attribute_strength(path: &str) -> (r: Option<ContractAttrStrength>)
    ensures
        r == attr_strength(path@),
{
    if text::str_eq(path, "contract") || text::str_eq(path, "contractimpl") {
        Some(ContractAttrStrength::Definition)
    } else if text::str_eq(path, "contracttype") || text::str_eq(path, "contractclient")
        || text::str_eq(path, "contracterror") || text::str_eq(path, "contractstorage") {
        Some(ContractAttrStrength::Related)
    } else {
        None
    }
}

/// The evidence line for a Soroban dependency declared in a manifest.
pub open spec fn dependency_evidence(dep: Seq<char>, manifest: Seq<char>) -> Seq<char> {
    "dependency `"@ + dep + "` declared in "@ + manifest
}

/// Over the first `n` dependencies: whether one is a Soroban dependency.
pub open spec fn deps_have_sdk(ds: Seq<Dependency>, n: int) -> bool
    decreases n,
{
    if n <= 0 {
        false
    } else {
        deps_have_sdk(ds, n - 1) || soroban_dep_name(ds[n - 1].name@)
    }
}

/// Over the first `n` dependencies: the versions of the Soroban ones.
pub open spec fn deps_sdk_versions(ds: Seq<Dependency>, n: int) -> Seq<Seq<char>>
    decreases n,
{
    if n <= 0 {
        Seq::empty()
    } else {
        let r = deps_sdk_versions(ds, n - 1);
        let d = ds[n - 1];
        if soroban_dep_name(d.name@) && d.version is Some {
            r.push(d.version->0@)
        } else {
            r
        }
    }
}

/// Over the first `n` dependencies: the evidence lines of the Soroban ones.
pub open spec fn deps_sdk_evidence(ds: Seq<Dependency>, n: int, manifest: Seq<char>) -> Seq<Seq<char>>
    decreases n,
{
    if n <= 0 {
        Seq::empty()
    } else {
        let r = deps_sdk_evidence(ds, n - 1, manifest);
        if soroban_dep_name(ds[n - 1].name@) {
            r.push(dependency_evidence(ds[n - 1].name@, manifest))
        } else {
            r
        }
    }
}

/// Over the first `n` manifests: whether one declares a Soroban dependency.
pub open spec fn manifests_have_sdk(ms: Seq<Manifest>, n: int) -> bool
    decreases n,
{
    if n <= 0 {
        false
    } else {
        manifests_have_sdk(ms, n - 1) || deps_have_sdk(
            ms[n - 1].dependencies@,
            ms[n - 1].dependencies@.len() as int,
        )
    }
}

/// Over the first `n` manifests: all Soroban dependency versions, in order.
pub open spec fn manifests_sdk_versions(ms: Seq<Manifest>, n: int) -> Seq<Seq<char>>
    decreases n,
{
    if n <= 0 {
        Seq::empty()
    } else {
        manifests_sdk_versions(ms, n - 1) + deps_sdk_versions(
            ms[n - 1].dependencies@,
            ms[n - 1].dependencies@.len() as int,
        )
    }
}

/// Over the first `n` manifests: all Soroban dependency evidence lines, in order.
pub open spec fn manifests_sdk_evidence(ms: Seq<Manifest>, n: int) -> Seq<Seq<char>>
    decreases n,
{
    if n <= 0 {
        Seq::empty()
    } else {
        manifests_sdk_evidence(ms, n - 1) + deps_sdk_evidence(
            ms[n - 1].dependencies@,
            ms[n - 1].dependencies@.len() as int,
            ms[n - 1].path@,
        )
    }
}

/// Collects Soroban evidence from parsed manifests.
///
/// Versions and evidence lines come out sorted and without repeats.
pub fn analyze_manifests(manifests: &[Manifest]) -> (info: SorobanInfo)
    ensures
        info.has_sdk_dependency == manifests_have_sdk(manifests@, manifests@.len() as int),
        !info.contract_macros_found,
        order::strictly_sorted_texts(views(info.sdk_versions@)),
        forall|v: Seq<char>|
            views(info.sdk_versions@).contains(v) <==> manifests_sdk_versions(
                manifests@,
                manifests@.len() as int,
            ).contains(v),
        order::strictly_sorted_texts(views(info.evidence@)),
        forall|e: Seq<char>|
            views(info.evidence@).contains(e) <==> manifests_sdk_evidence(
                manifests@,
                manifests@.len() as int,
            ).contains(e),
{
    let mut has = false;
    let mut versions: Vec<String> = Vec::new();
    let mut evidence: Vec<String> = Vec::new();
    let ghost ms = manifests@;
    let mut i: usize = 0;
    assert(views(versions@) =~= Seq::<Seq<char>>::empty());
    assert(views(evidence@) =~= Seq::<Seq<char>>::empty());
    while i < manifests.len()
        invariant
            i <= ms.len(),
            ms == manifests@,
            has == manifests_have_sdk(ms, i as int),
            views(versions@) == manifests_sdk_versions(ms, i as int),
            views(evidence@) == manifests_sdk_evidence(ms, i as int),
        decreases ms.len() - i,
    {
        let manifest = &manifests[i];
        let ghost ds = manifest.dependencies@;
        let mut j: usize = 0;
        let ghost has0 = has;
        let ghost vs0 = views(versions@);
        let ghost ev0 = views(evidence@);
        assert(vs0 + deps_sdk_versions(ds, 0) =~= vs0);
        assert(ev0 + deps_sdk_evidence(ds, 0, manifest.path@) =~= ev0);
        while j < manifest.dependencies.len()
            invariant
                i < ms.len(),
                j <= ds.len(),
                ms == manifests@,
                *manifest == ms[i as int],
                ds == manifest.dependencies@,
                has == (has0 || deps_have_sdk(ds, j as int)),
                views(versions@) == vs0 + deps_sdk_versions(ds, j as int),
                views(evidence@) == ev0 + deps_sdk_evidence(ds, j as int, manifest.path@),
            decreases ds.len() - j,
        {
            let dep = &manifest.dependencies[j];
            if is_soroban_dependency(dep.name.as_str()) {
                has = true;
                let ghost vprev = views(versions@);
                match &dep.version {
                    Some(v) => {
                        versions.push(v.clone());
                        assert(views(versions@) =~= vprev.push(v@));
                    },
                    None => {},
                }
                let mut line = text::concat2("dependency `", dep.name.as_str());
                text::push_str(&mut line, "` declared in ");
                text::push_str(&mut line, manifest.path.as_str());
                let ghost eprev = views(evidence@);
                evidence.push(line);
                assert(views(evidence@) =~= eprev.push(line@));
            }
            j = j + 1;
            assert(views(versions@) =~= vs0 + deps_sdk_versions(ds, j as int));
            assert(views(evidence@) =~= ev0 + deps_sdk_evidence(ds, j as int, manifest.path@));
        }
        i = i + 1;
    }
    let sdk_versions = order::sort_unique_strings(&versions);
    let evidence = order::sort_unique_strings(&evidence);
    SorobanInfo { has_sdk_dependency: has, contract_macros_found: false, sdk_versions, evidence }
}

/// The classification a body of evidence supports.
pub open spec fn classify_spec(info: SorobanInfo) -> ProjectKind {
    if info.contract_macros_found {
        ProjectKind::ConfirmedSoroban
    } else if info.has_sdk_dependency || info.evidence@.len() > 0 {
        ProjectKind::LikelySoroban
    } else {
        ProjectKind::GenericRust
    }
}

/// Derives the project classification from collected evidence.
pub fn classify(info: &SorobanInfo) -> (r: ProjectKind)
    ensures
        r == classify_spec(*info),
{
    if info.contract_macros_found {
        ProjectKind::ConfirmedSoroban
    } else if info.has_sdk_dependency || info.evidence.len() > 0 {
        ProjectKind::LikelySoroban
    } else {
        ProjectKind::GenericRust
    }
}

/// The evidence line for a contract definition.
pub open spec fn definition_evidence(location: Seq<char>) -> Seq<char> {
    "contract definition at "@ + location
}

/// Records that a contract definition attribute was observed.
///
/// The evidence line is added once; the evidence list is then re-sorted.
pub fn note_contract_definition(info: &mut SorobanInfo, location: &str)
    ensures
        final(info).contract_macros_found,
        final(info).has_sdk_dependency == old(info).has_sdk_dependency,
        final(info).sdk_versions == old(info).sdk_versions,
        views(old(info).evidence@).contains(definition_evidence(location@)) ==> views(final(info).evidence@)
            == views(old(info).evidence@),
        !views(old(info).evidence@).contains(definition_evidence(location@)) ==> {
            &&& order::sorted_texts(views(final(info).evidence@))
            &&& views(final(info).evidence@).to_multiset() == views(old(info).evidence@).push(
                definition_evidence(location@),
            ).to_multiset()
        },
        order::strictly_sorted_texts(views(old(info).evidence@)) ==> order::strictly_sorted_texts(
            views(final(info).evidence@),
        ),
{
    info.contract_macros_found = true;
    let evidence = text::concat2("contract definition at ", location);
    if !order::list_contains(&info.evidence, evidence.as_str()) {
        let ghost prev = views(info.evidence@);
        info.evidence.push(evidence);
        assert(views(info.evidence@) =~= prev.push(definition_evidence(location@)));
        let sorted = order::sort_strings(&info.evidence);
        info.evidence = sorted;
        proof {
            if order::strictly_sorted_texts(prev) {
                let d = definition_evidence(location@);
                order::lemma_strictly_sorted_no_duplicates(prev);
                assert(prev.push(d).no_duplicates()) by {
                    assert forall|i: int, j: int|
                        0 <= i < prev.push(d).len() && 0 <= j < prev.push(d).len() && i != j implies prev.push(d)[i]
                        != prev.push(d)[j] by {
                        if i == prev.len() {
                            assert(prev.contains(prev[j]));
                        } else if j == prev.len() {
                            assert(prev.contains(prev[i]));
                        }
                    }
                }
                order::lemma_sorted_permutation_strict(views(info.evidence@), prev.push(d));
            }
        }
    }
}

/// Observing a contract definition always confirms the project as Soroban,
/// whatever evidence was collected before.
pub proof fn lemma_definition_confirms(info: SorobanInfo)
    requires
        info.contract_macros_found,
    ensures
        classify_spec(info) == ProjectKind::ConfirmedSoroban,
{
}

/// A project is never classified as Soroban without evidence: with no
/// dependency, no contract definition and no evidence line it stays generic.
pub proof fn lemma_no_evidence_is_generic(info: SorobanInfo)
    requires
        !info.contract_macros_found,
        !info.has_sdk_dependency,
        info.evidence@.len() == 0,
    ensures
        classify_spec(info) == ProjectKind::GenericRust,
{
}


/// A crate name is a Soroban dependency exactly when, with every `_` read as
/// `-`, it is `soroban-sdk` or starts with `soroban-` or `stellar-`.
pub proof fn lemma_soroban_dependency_names(name: Seq<char>)
    ensures
        ({
            let n = Seq::new(name.len(), |i: int| if name[i] == '_' { '-' } else { name[i] });
            soroban_dep_name(name) <==> (n == "soroban-sdk"@ || (n.len() >= 8 && n.subrange(0, 8)
                == "soroban-"@) || (n.len() >= 8 && n.subrange(0, 8) == "stellar-"@))
        }),
{
    reveal_strlit("soroban-");
    reveal_strlit("stellar-");
    let n = Seq::new(name.len(), |i: int| if name[i] == '_' { '-' } else { name[i] });
    assert(n =~= text::replace_char(name, '_', '-'));
}

proof fn lemma_deps_find(ds: Seq<Dependency>, n: int, k: int, manifest: Seq<char>)
    requires
        0 <= k < n <= ds.len(),
        soroban_dep_name(ds[k].name@),
    ensures
        deps_have_sdk(ds, n),
        deps_sdk_evidence(ds, n, manifest).contains(dependency_evidence(ds[k].name@, manifest)),
    decreases n,
{
    if k < n - 1 {
        lemma_deps_find(ds, n - 1, k, manifest);
        let r = deps_sdk_evidence(ds, n - 1, manifest);
        let w = choose|w: int| 0 <= w < r.len() && r[w] == dependency_evidence(ds[k].name@, manifest);
        if soroban_dep_name(ds[n - 1].name@) {
            assert(r.push(dependency_evidence(ds[n - 1].name@, manifest))[w] == r[w]);
        }
    } else {
        let r = deps_sdk_evidence(ds, n - 1, manifest);
        assert(r.push(dependency_evidence(ds[k].name@, manifest))[r.len() as int] == dependency_evidence(
            ds[k].name@,
            manifest,
        ));
    }
}

proof fn lemma_manifests_find(ms: Seq<Manifest>, n: int, i: int, j: int)
    requires
        0 <= i < n <= ms.len(),
        0 <= j < ms[i].dependencies@.len(),
        soroban_dep_name(ms[i].dependencies@[j].name@),
    ensures
        manifests_have_sdk(ms, n),
        manifests_sdk_evidence(ms, n).contains(dependency_evidence(ms[i].dependencies@[j].name@, ms[i].path@)),
    decreases n,
{
    let e = dependency_evidence(ms[i].dependencies@[j].name@, ms[i].path@);
    let r = manifests_sdk_evidence(ms, n - 1);
    let ds = ms[n - 1].dependencies@;
    let t = deps_sdk_evidence(ds, ds.len() as int, ms[n - 1].path@);
    if i < n - 1 {
        lemma_manifests_find(ms, n - 1, i, j);
        let w = choose|w: int| 0 <= w < r.len() && r[w] == e;
        assert((r + t)[w] == e);
    } else {
        lemma_deps_find(ds, ds.len() as int, j, ms[i].path@);
        let w = choose|w: int| 0 <= w < t.len() && t[w] == e;
        assert((r + t)[r.len() + w] == e);
    }
}

/// One Soroban-named dependency (for example `stellar-xdr`) in any manifest
/// marks the project as depending on Soroban: the manifests declare an SDK
/// dependency, their evidence names it with its manifest, and a project whose
/// SDK flag comes from these manifests is never classified as generic Rust.
pub proof fn lemma_soroban_dependency_marks_project(ms: Seq<Manifest>, i: int, j: int)
    requires
        0 <= i < ms.len(),
        0 <= j < ms[i].dependencies@.len(),
        ({
            let name = ms[i].dependencies@[j].name@;
            let n = Seq::new(name.len(), |k: int| if name[k] == '_' { '-' } else { name[k] });
            n == "soroban-sdk"@ || (n.len() >= 8 && n.subrange(0, 8) == "soroban-"@) || (n.len() >= 8
                && n.subrange(0, 8) == "stellar-"@)
        }),
    ensures
        manifests_have_sdk(ms, ms.len() as int),
        manifests_sdk_evidence(ms, ms.len() as int).contains(
            dependency_evidence(ms[i].dependencies@[j].name@, ms[i].path@),
        ),
        forall|info: SorobanInfo|
            info.has_sdk_dependency == manifests_have_sdk(ms, ms.len() as int) ==> #[trigger] classify_spec(info)
                != ProjectKind::GenericRust,
{
    lemma_soroban_dependency_names(ms[i].dependencies@[j].name@);
    lemma_manifests_find(ms, ms.len() as int, i, j);
}

} // verus!
