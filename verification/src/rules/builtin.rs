//! The built-in rules and their registration.
use vstd::prelude::*;

use crate::context::AnalysisContext;
use crate::finding::{Finding, FindingView};
use crate::registry::{ids_of, valid_rule_id, RegistryError, RuleRegistry};
use crate::rule::{ContextView, Rule, RuleMetadata};
use crate::rules::{
    cross_contract_auth, hardcoded_address, missing_authorization, panic_prone, ttl_management,
    unbounded_iteration, unsafe_code,
};

verus! {

/// One of the built-in detectors.
#[derive(Debug, Clone, Copy)]
pub enum BuiltinRule {
    /// SS-001.
    MissingAuthorization(missing_authorization::MissingAuthorization),
    /// SS-002.
    CrossContractAuth(cross_contract_auth::CrossContractAuth),
    /// SS-003.
    UnboundedIteration(unbounded_iteration::UnboundedIteration),
    /// SS-004.
    PanicProne(panic_prone::PanicProne),
    /// SS-005.
    UnsafeCode(unsafe_code::UnsafeCode),
    /// SS-006.
    TtlManagement(ttl_management::TtlManagement),
    /// SS-007.
    HardcodedAddress(hardcoded_address::HardcodedAddress),
}

/// The metadata of a built-in rule.
pub open spec fn builtin_metadata(b: BuiltinRule, m: RuleMetadata) -> bool {
    match b {
        BuiltinRule::MissingAuthorization(_) => missing_authorization::is_metadata(m),
        BuiltinRule::CrossContractAuth(_) => cross_contract_auth::is_metadata(m),
        BuiltinRule::UnboundedIteration(_) => unbounded_iteration::is_metadata(m),
        BuiltinRule::PanicProne(_) => panic_prone::is_metadata(m),
        BuiltinRule::UnsafeCode(_) => unsafe_code::is_metadata(m),
        BuiltinRule::TtlManagement(_) => ttl_management::is_metadata(m),
        BuiltinRule::HardcodedAddress(_) => hardcoded_address::is_metadata(m),
    }
}

/// The findings of a built-in rule on an observed context.
pub open spec fn builtin_findings(b: BuiltinRule, c: ContextView) -> Seq<FindingView> {
    match b {
        BuiltinRule::MissingAuthorization(_) => missing_authorization::findings(c),
        BuiltinRule::CrossContractAuth(_) => cross_contract_auth::findings(c),
        BuiltinRule::UnboundedIteration(_) => unbounded_iteration::findings(c),
        BuiltinRule::PanicProne(_) => panic_prone::findings(c),
        BuiltinRule::UnsafeCode(_) => unsafe_code::findings(c),
        BuiltinRule::TtlManagement(_) => ttl_management::findings(c),
        BuiltinRule::HardcodedAddress(_) => hardcoded_address::findings(c),
    }
}

impl Rule for BuiltinRule {
    open spec fn metadata_spec(&self) -> RuleMetadata {
        match self {
            BuiltinRule::MissingAuthorization(x) => x.metadata_spec(),
            BuiltinRule::CrossContractAuth(x) => x.metadata_spec(),
            BuiltinRule::UnboundedIteration(x) => x.metadata_spec(),
            BuiltinRule::PanicProne(x) => x.metadata_spec(),
            BuiltinRule::UnsafeCode(x) => x.metadata_spec(),
            BuiltinRule::TtlManagement(x) => x.metadata_spec(),
            BuiltinRule::HardcodedAddress(x) => x.metadata_spec(),
        }
    }

    open spec fn default_enabled(&self) -> bool {
        true
    }

    fn enabled_by_default(&self) -> (r: bool) {
        true
    }

    open spec fn reports_exactly(&self) -> bool {
        true
    }

    open spec fn analysis(&self, c: ContextView) -> Seq<FindingView> {
        builtin_findings(*self, c)
    }

    fn metadata(&self) -> (r: RuleMetadata) {
        match self {
            BuiltinRule::MissingAuthorization(x) => x.metadata(),
            BuiltinRule::CrossContractAuth(x) => x.metadata(),
            BuiltinRule::UnboundedIteration(x) => x.metadata(),
            BuiltinRule::PanicProne(x) => x.metadata(),
            BuiltinRule::UnsafeCode(x) => x.metadata(),
            BuiltinRule::TtlManagement(x) => x.metadata(),
            BuiltinRule::HardcodedAddress(x) => x.metadata(),
        }
    }

    fn analyze(&self, ctx: &AnalysisContext<'_>, out: &mut Vec<Finding>) {
        match self {
            BuiltinRule::MissingAuthorization(x) => x.analyze(ctx, out),
            BuiltinRule::CrossContractAuth(x) => x.analyze(ctx, out),
            BuiltinRule::UnboundedIteration(x) => x.analyze(ctx, out),
            BuiltinRule::PanicProne(x) => x.analyze(ctx, out),
            BuiltinRule::UnsafeCode(x) => x.analyze(ctx, out),
            BuiltinRule::TtlManagement(x) => x.analyze(ctx, out),
            BuiltinRule::HardcodedAddress(x) => x.analyze(ctx, out),
        }
    }
}

/// The built-in rules, in registration order.
pub fn builtin_rules() -> (r: Vec<BuiltinRule>)
    ensures
        r@.len() == 7,
        r@[0] is MissingAuthorization,
        r@[1] is CrossContractAuth,
        r@[2] is UnboundedIteration,
        r@[3] is PanicProne,
        r@[4] is UnsafeCode,
        r@[5] is TtlManagement,
        r@[6] is HardcodedAddress,
{
    let mut r: Vec<BuiltinRule> = Vec::new();
    r.push(BuiltinRule::MissingAuthorization(missing_authorization::MissingAuthorization));
    r.push(BuiltinRule::CrossContractAuth(cross_contract_auth::CrossContractAuth));
    r.push(BuiltinRule::UnboundedIteration(unbounded_iteration::UnboundedIteration));
    r.push(BuiltinRule::PanicProne(panic_prone::PanicProne));
    r.push(BuiltinRule::UnsafeCode(unsafe_code::UnsafeCode));
    r.push(BuiltinRule::TtlManagement(ttl_management::TtlManagement));
    r.push(BuiltinRule::HardcodedAddress(hardcoded_address::HardcodedAddress));
    r
}

/// The ids of the built-in rules, in registration order.
pub open spec fn builtin_ids() -> Seq<Seq<char>> {
    seq!["SS-001"@, "SS-002"@, "SS-003"@, "SS-004"@, "SS-005"@, "SS-006"@, "SS-007"@]
}

proof fn lemma_builtin_ids(b: BuiltinRule, m: RuleMetadata, k: int)
    requires
        builtin_metadata(b, m),
        0 <= k < 7,
        k == 0 ==> b is MissingAuthorization,
        k == 1 ==> b is CrossContractAuth,
        k == 2 ==> b is UnboundedIteration,
        k == 3 ==> b is PanicProne,
        k == 4 ==> b is UnsafeCode,
        k == 5 ==> b is TtlManagement,
        k == 6 ==> b is HardcodedAddress,
    ensures
        m.id@ == builtin_ids()[k],
        crate::registry::valid_rule_id(m.id@),
{
    reveal_strlit("SS-001");
    reveal_strlit("SS-002");
    reveal_strlit("SS-003");
    reveal_strlit("SS-004");
    reveal_strlit("SS-005");
    reveal_strlit("SS-006");
    reveal_strlit("SS-007");
}

proof fn lemma_builtin_ids_distinct()
    ensures
        forall|a: int, b: int| 0 <= a < b < 7 ==> builtin_ids()[a] != builtin_ids()[b],
{
    reveal_strlit("SS-001");
    reveal_strlit("SS-002");
    reveal_strlit("SS-003");
    reveal_strlit("SS-004");
    reveal_strlit("SS-005");
    reveal_strlit("SS-006");
    reveal_strlit("SS-007");
    assert forall|a: int, b: int| 0 <= a < b < 7 implies builtin_ids()[a] != builtin_ids()[b] by {
        assert(builtin_ids()[a][5] != builtin_ids()[b][5]);
    }
}

/// Registers every built-in rule with the registry.
///
/// Registration stops at the first rule whose id is already registered; on an
/// empty registry it always succeeds.
pub fn register_all(registry: &mut RuleRegistry<BuiltinRule>) -> (r: Result<(), RegistryError>)
    requires
        old(registry).wf(),
    ensures
        final(registry).wf(),
        r is Ok <==> (forall|k: int| 0 <= k < 7 ==> !ids_of(old(registry).metadata_spec()).contains(#[trigger] builtin_ids()[k])),
        r is Ok ==> ids_of(final(registry).metadata_spec()) == ids_of(old(registry).metadata_spec()) + builtin_ids(),
{
    let rules = builtin_rules();
    let ghost start = ids_of(registry.metadata_spec());
    proof {
        lemma_builtin_ids_distinct();
    }
    let mut i: usize = 0;
    while i < 7
        invariant
            i <= 7,
            registry.wf(),
            rules@.len() == 7,
            rules@[0] is MissingAuthorization,
            rules@[1] is CrossContractAuth,
            rules@[2] is UnboundedIteration,
            rules@[3] is PanicProne,
            rules@[4] is UnsafeCode,
            rules@[5] is TtlManagement,
            rules@[6] is HardcodedAddress,
            start == ids_of(old(registry).metadata_spec()),
            ids_of(registry.metadata_spec()) == start + builtin_ids().take(i as int),
            forall|k: int| 0 <= k < i ==> !start.contains(#[trigger] builtin_ids()[k]),
            forall|a: int, b: int| 0 <= a < b < 7 ==> builtin_ids()[a] != builtin_ids()[b],
        decreases 7 - i,
    {
        let ghost before = ids_of(registry.metadata_spec());
        let ghost prev = registry.metadata_spec();
        let rule = rules[i];
        let res = registry.register(rule);
        match res {
            Ok(()) => {
                proof {
                    let m = rule.metadata_spec();
                    assert(builtin_metadata(rule, m));
                    lemma_builtin_ids(rule, m, i as int);
                    assert(ids_of(registry.metadata_spec()) =~= before.push(m.id@));
                    assert(builtin_ids().take(i + 1) =~= builtin_ids().take(i as int).push(builtin_ids()[i as int]));
                    assert(!start.contains(builtin_ids()[i as int])) by {
                        if start.contains(builtin_ids()[i as int]) {
                            let w = choose|w: int| 0 <= w < start.len() && start[w] == builtin_ids()[i as int];
                            assert(before[w] == start[w]);
                        }
                    }
                }
            },
            Err(e) => {
                proof {
                    let m = rule.metadata_spec();
                    assert(builtin_metadata(rule, m));
                    lemma_builtin_ids(rule, m, i as int);
                    let id = builtin_ids()[i as int];
                    assert(before.contains(id));
                    let w = choose|w: int| 0 <= w < before.len() && before[w] == id;
                    if w >= start.len() {
                        assert(before[w] == builtin_ids()[w - start.len()]);
                    }
                    assert(start.contains(id)) by {
                        assert(start[w] == id);
                    }
                }
                return Err(e);
            },
        }
        i = i + 1;
    }
    assert(builtin_ids().take(7) =~= builtin_ids());
    Ok(())
}

impl RuleRegistry<BuiltinRule> {
    /// Creates a registry with all built-in rules registered.
    pub fn with_default_rules() -> (r: Self)
        ensures
            r.wf(),
            ids_of(r.metadata_spec()) == builtin_ids(),
    {
        let mut registry = RuleRegistry::new();
        let res = register_all(&mut registry);
        proof {
            assert(ids_of(Seq::<RuleMetadata>::empty()) =~= Seq::<Seq<char>>::empty());
            assert(ids_of(Seq::<RuleMetadata>::empty()) + builtin_ids() =~= builtin_ids());
        }
        match res {
            Ok(()) => {},
            Err(_) => {
                assert(false);
            },
        }
        registry
    }
}

/// Every built-in rule states exactly what it reports, so a scan with a
/// registry of built-in rules is a function of the project and configuration.
pub proof fn lemma_builtin_rules_exact(registry: RuleRegistry<BuiltinRule>)
    ensures
        crate::engine::all_exact(registry.rules_spec()),
{
}

} // verus!
