//! SS-002: cross-contract call from an entry point without caller authorization.
use vstd::prelude::*;

use crate::category::Category;
use crate::confidence::Confidence;
use crate::context::AnalysisContext;
use crate::finding::{str_views, Finding, FindingView};
use crate::model::ProjectKind;
use crate::rule::{context_view, ContextView, Rule, RuleMetadata};
use crate::source::source_views;
use crate::rules::checks::{self, context_sources, entry_findings, finding_views, EntryCheck};
use crate::severity::Severity;

verus! {

/// The metadata of this rule.
pub open spec fn is_metadata(m: RuleMetadata) -> bool {
    m.id@ == "SS-002"@
        && m.title@ == "Cross-contract call without caller authorization"@
        && m.description@ == "A public contract function constructs and calls another contract client but does not call require_auth anywhere in its body. If the contract acts on funds or privileges it controls, an attacker may be able to trigger cross-contract effects without the caller's approval. This is a heuristic: the called contract may itself enforce authorization, or the invocation may be intentionally permissionless."@
        && m.category == Category::CrossContract
        && m.default_severity == Severity::High
        && m.default_confidence == Confidence::Low
        && m.remediation@ == "Authorize the caller with `address.require_auth()` before invoking another contract on the contract's behalf, and bind the approval to the specific arguments of the operation. Verify that any address used to construct the client is the expected contract."@
        && m.references@.len() == 1
        && m.references@[0]@ == "https://developers.stellar.org/docs/learn/encyclopedia/security/authorization"@
}

/// This rule's metadata value.
pub open spec fn meta_value() -> RuleMetadata {
    RuleMetadata {
        id: "SS-002",
        title: "Cross-contract call without caller authorization",
        description: "A public contract function constructs and calls another contract client but does not call require_auth anywhere in its body. If the contract acts on funds or privileges it controls, an attacker may be able to trigger cross-contract effects without the caller's approval. This is a heuristic: the called contract may itself enforce authorization, or the invocation may be intentionally permissionless.",
        category: Category::CrossContract,
        default_severity: Severity::High,
        default_confidence: Confidence::Low,
        remediation: "Authorize the caller with `address.require_auth()` before invoking another contract on the contract's behalf, and bind the approval to the specific arguments of the operation. Verify that any address used to construct the client is the expected contract.",
        references: &["https://developers.stellar.org/docs/learn/encyclopedia/security/authorization"],
    }
}

/// Rule metadata.
pub fn metadata() -> (r: RuleMetadata)
    ensures
        is_metadata(r),
        r == meta_value(),
{
    RuleMetadata {
        id: "SS-002",
        title: "Cross-contract call without caller authorization",
        description: "A public contract function constructs and calls another contract client but does not call require_auth anywhere in its body. If the contract acts on funds or privileges it controls, an attacker may be able to trigger cross-contract effects without the caller's approval. This is a heuristic: the called contract may itself enforce authorization, or the invocation may be intentionally permissionless.",
        category: Category::CrossContract,
        default_severity: Severity::High,
        default_confidence: Confidence::Low,
        remediation: "Authorize the caller with `address.require_auth()` before invoking another contract on the contract's behalf, and bind the approval to the specific arguments of the operation. Verify that any address used to construct the client is the expected contract.",
        references: &["https://developers.stellar.org/docs/learn/encyclopedia/security/authorization"],
    }
}

/// This rule's metadata, as a value with its text.
pub open spec fn rule_meta() -> RuleMetadata {
    choose|m: RuleMetadata| is_metadata(m)
}

/// The findings of this rule on an observed context: none unless the project
/// is a confirmed Soroban contract.
pub open spec fn findings(c: ContextView) -> Seq<FindingView> {
    if c.kind == ProjectKind::ConfirmedSoroban {
        entry_findings(EntryCheck::CrossContract, rule_meta(), c.root, c.sources)
    } else {
        Seq::empty()
    }
}

/// Detects unauthenticated cross-contract calls from entry points.
#[derive(Debug, Clone, Copy, Default)]
pub struct CrossContractAuth;

impl Rule for CrossContractAuth {
    open spec fn metadata_spec(&self) -> RuleMetadata {
        meta_value()
    }

    open spec fn default_enabled(&self) -> bool {
        true
    }

    fn enabled_by_default(&self) -> (r: bool) {
        true
    }

    open spec fn reports_exactly(&self) -> bool {
        true
    }

    open spec fn analysis(&self, c: ContextView) -> Seq<FindingView> {
        findings(c)
    }

    fn metadata(&self) -> (r: RuleMetadata) {
        metadata()
    }

    fn analyze(&self, ctx: &AnalysisContext<'_>, out: &mut Vec<Finding>) {
        let meta = metadata();
        if !ctx.is_confirmed_soroban() {
            assert(finding_views(out@) =~= finding_views(out@) + findings(context_view(ctx)));
            return;
        }
        checks::entry_point_findings(EntryCheck::CrossContract, &meta, ctx, out);
        proof {
            assert(str_views(meta.references@) =~= str_views(rule_meta().references@));
            assert(context_sources(ctx) =~= source_views(ctx.sources@));
            checks::lemma_entry_findings_meta(EntryCheck::CrossContract, meta, rule_meta(), ctx.root@, source_views(ctx.sources@));
        }
    }
}

} // verus!
