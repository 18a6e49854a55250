//! SS-001: state-changing entry point without caller authorization.
use vstd::prelude::*;

use crate::category::Category;
use crate::confidence::Confidence;
use crate::context::AnalysisContext;
use crate::finding::{str_views, Finding, FindingView};
use crate::model::ProjectKind;
use crate::rule::{context_view, ContextView, Rule, RuleMetadata};
use crate::source::source_views;
use crate::rules::checks::{self, context_sources, entry_findings, finding_views, EntryCheck};
use crate::severity::Severity;

verus! {

/// The metadata of this rule.
pub open spec fn is_metadata(m: RuleMetadata) -> bool {
    m.id@ == "SS-001"@
        && m.title@ == "State-changing entry point without caller authorization"@
        && m.description@ == "A public contract function mutates storage but does not call require_auth or require_auth_for_args anywhere in its body. Without an authorization check, any account can invoke the function and change contract state, which may allow theft, privilege escalation, or corruption of contract data. This is a heuristic: authorization may legitimately be enforced by a callee or be intentionally absent for permissionless operations."@
        && m.category == Category::Authorization
        && m.default_severity == Severity::High
        && m.default_confidence == Confidence::Medium
        && m.remediation@ == "Call `address.require_auth()` (or `require_auth_for_args`) for the account that must approve the operation before mutating state. Prefer authorizing a specific argument that binds the approval to the operation rather than authorizing a stored admin address unconditionally. If the function is intentionally permissionless, document that and suppress this rule for the function."@
        && m.references@.len() == 1
        && m.references@[0]@ == "https://developers.stellar.org/docs/learn/encyclopedia/security/authorization"@
}

/// This rule's metadata value.
pub open spec fn meta_value() -> RuleMetadata {
    RuleMetadata {
        id: "SS-001",
        title: "State-changing entry point without caller authorization",
        description: "A public contract function mutates storage but does not call require_auth or require_auth_for_args anywhere in its body. Without an authorization check, any account can invoke the function and change contract state, which may allow theft, privilege escalation, or corruption of contract data. This is a heuristic: authorization may legitimately be enforced by a callee or be intentionally absent for permissionless operations.",
        category: Category::Authorization,
        default_severity: Severity::High,
        default_confidence: Confidence::Medium,
        remediation: "Call `address.require_auth()` (or `require_auth_for_args`) for the account that must approve the operation before mutating state. Prefer authorizing a specific argument that binds the approval to the operation rather than authorizing a stored admin address unconditionally. If the function is intentionally permissionless, document that and suppress this rule for the function.",
        references: &["https://developers.stellar.org/docs/learn/encyclopedia/security/authorization"],
    }
}

/// Rule metadata.
pub fn metadata() -> (r: RuleMetadata)
    ensures
        is_metadata(r),
        r == meta_value(),
{
    RuleMetadata {
        id: "SS-001",
        title: "State-changing entry point without caller authorization",
        description: "A public contract function mutates storage but does not call require_auth or require_auth_for_args anywhere in its body. Without an authorization check, any account can invoke the function and change contract state, which may allow theft, privilege escalation, or corruption of contract data. This is a heuristic: authorization may legitimately be enforced by a callee or be intentionally absent for permissionless operations.",
        category: Category::Authorization,
        default_severity: Severity::High,
        default_confidence: Confidence::Medium,
        remediation: "Call `address.require_auth()` (or `require_auth_for_args`) for the account that must approve the operation before mutating state. Prefer authorizing a specific argument that binds the approval to the operation rather than authorizing a stored admin address unconditionally. If the function is intentionally permissionless, document that and suppress this rule for the function.",
        references: &["https://developers.stellar.org/docs/learn/encyclopedia/security/authorization"],
    }
}

/// This rule's metadata, as a value with its text.
pub open spec fn rule_meta() -> RuleMetadata {
    choose|m: RuleMetadata| is_metadata(m)
}

/// The findings of this rule on an observed context: none unless the project
/// is a confirmed Soroban contract.
pub open spec fn findings(c: ContextView) -> Seq<FindingView> {
    if c.kind == ProjectKind::ConfirmedSoroban {
        entry_findings(EntryCheck::MissingAuthorization, rule_meta(), c.root, c.sources)
    } else {
        Seq::empty()
    }
}

/// Detects storage-mutating entry points without authorization.
#[derive(Debug, Clone, Copy, Default)]
pub struct MissingAuthorization;

impl Rule for MissingAuthorization {
    open spec fn metadata_spec(&self) -> RuleMetadata {
        meta_value()
    }

    open spec fn default_enabled(&self) -> bool {
        true
    }

    fn enabled_by_default(&self) -> (r: bool) {
        true
    }

    open spec fn reports_exactly(&self) -> bool {
        true
    }

    open spec fn analysis(&self, c: ContextView) -> Seq<FindingView> {
        findings(c)
    }

    fn metadata(&self) -> (r: RuleMetadata) {
        metadata()
    }

    fn analyze(&self, ctx: &AnalysisContext<'_>, out: &mut Vec<Finding>) {
        let meta = metadata();
        if !ctx.is_confirmed_soroban() {
            assert(finding_views(out@) =~= finding_views(out@) + findings(context_view(ctx)));
            return;
        }
        checks::entry_point_findings(EntryCheck::MissingAuthorization, &meta, ctx, out);
        proof {
            assert(str_views(meta.references@) =~= str_views(rule_meta().references@));
            assert(context_sources(ctx) =~= source_views(ctx.sources@));
            checks::lemma_entry_findings_meta(EntryCheck::MissingAuthorization, meta, rule_meta(), ctx.root@, source_views(ctx.sources@));
        }
    }
}

} // verus!
