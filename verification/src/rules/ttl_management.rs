//! SS-006: persistent storage write without TTL management.
use vstd::prelude::*;

use crate::category::Category;
use crate::confidence::Confidence;
use crate::context::AnalysisContext;
use crate::finding::{str_views, Finding, FindingView};
use crate::model::ProjectKind;
use crate::rule::{context_view, ContextView, Rule, RuleMetadata};
use crate::source::source_views;
use crate::rules::checks::{self, context_sources, entry_findings, finding_views, EntryCheck};
use crate::severity::Severity;

verus! {

/// The metadata of this rule.
pub open spec fn is_metadata(m: RuleMetadata) -> bool {
    m.id@ == "SS-006"@
        && m.title@ == "Persistent storage write without TTL management"@
        && m.description@ == "A contract entry point writes to persistent storage but does not call `extend_ttl`, `set_ttl`, or `bump` in the same function. Persistent entries have a time-to-live; if it is not extended, stored data can expire and be lost. TTL may legitimately be managed elsewhere (for example in a separate maintenance entry point), so this is a low-confidence signal."@
        && m.category == Category::Storage
        && m.default_severity == Severity::Low
        && m.default_confidence == Confidence::Low
        && m.remediation@ == "When writing persistent data that must survive, extend its time-to-live with `storage().persistent().extend_ttl(...)` after the write. Prefer a single, well-documented TTL policy for the contract. If TTL is managed centrally, suppress this rule for the function."@
        && m.references@.len() == 1
        && m.references@[0]@ == "https://developers.stellar.org/docs/learn/encyclopedia/storage/persisting-data"@
}

/// This rule's metadata value.
pub open spec fn meta_value() -> RuleMetadata {
    RuleMetadata {
        id: "SS-006",
        title: "Persistent storage write without TTL management",
        description: "A contract entry point writes to persistent storage but does not call `extend_ttl`, `set_ttl`, or `bump` in the same function. Persistent entries have a time-to-live; if it is not extended, stored data can expire and be lost. TTL may legitimately be managed elsewhere (for example in a separate maintenance entry point), so this is a low-confidence signal.",
        category: Category::Storage,
        default_severity: Severity::Low,
        default_confidence: Confidence::Low,
        remediation: "When writing persistent data that must survive, extend its time-to-live with `storage().persistent().extend_ttl(...)` after the write. Prefer a single, well-documented TTL policy for the contract. If TTL is managed centrally, suppress this rule for the function.",
        references: &["https://developers.stellar.org/docs/learn/encyclopedia/storage/persisting-data"],
    }
}

/// Rule metadata.
pub fn metadata() -> (r: RuleMetadata)
    ensures
        is_metadata(r),
        r == meta_value(),
{
    RuleMetadata {
        id: "SS-006",
        title: "Persistent storage write without TTL management",
        description: "A contract entry point writes to persistent storage but does not call `extend_ttl`, `set_ttl`, or `bump` in the same function. Persistent entries have a time-to-live; if it is not extended, stored data can expire and be lost. TTL may legitimately be managed elsewhere (for example in a separate maintenance entry point), so this is a low-confidence signal.",
        category: Category::Storage,
        default_severity: Severity::Low,
        default_confidence: Confidence::Low,
        remediation: "When writing persistent data that must survive, extend its time-to-live with `storage().persistent().extend_ttl(...)` after the write. Prefer a single, well-documented TTL policy for the contract. If TTL is managed centrally, suppress this rule for the function.",
        references: &["https://developers.stellar.org/docs/learn/encyclopedia/storage/persisting-data"],
    }
}

/// This rule's metadata, as a value with its text.
pub open spec fn rule_meta() -> RuleMetadata {
    choose|m: RuleMetadata| is_metadata(m)
}

/// The findings of this rule on an observed context: none unless the project
/// is a confirmed Soroban contract.
pub open spec fn findings(c: ContextView) -> Seq<FindingView> {
    if c.kind == ProjectKind::ConfirmedSoroban {
        entry_findings(EntryCheck::TtlManagement, rule_meta(), c.root, c.sources)
    } else {
        Seq::empty()
    }
}

/// Detects persistent writes without TTL management in the same entry point.
#[derive(Debug, Clone, Copy, Default)]
pub struct TtlManagement;

impl Rule for TtlManagement {
    open spec fn metadata_spec(&self) -> RuleMetadata {
        meta_value()
    }

    open spec fn default_enabled(&self) -> bool {
        true
    }

    fn enabled_by_default(&self) -> (r: bool) {
        true
    }

    open spec fn reports_exactly(&self) -> bool {
        true
    }

    open spec fn analysis(&self, c: ContextView) -> Seq<FindingView> {
        findings(c)
    }

    fn metadata(&self) -> (r: RuleMetadata) {
        metadata()
    }

    fn analyze(&self, ctx: &AnalysisContext<'_>, out: &mut Vec<Finding>) {
        let meta = metadata();
        if !ctx.is_confirmed_soroban() {
            assert(finding_views(out@) =~= finding_views(out@) + findings(context_view(ctx)));
            return;
        }
        checks::entry_point_findings(EntryCheck::TtlManagement, &meta, ctx, out);
        proof {
            assert(str_views(meta.references@) =~= str_views(rule_meta().references@));
            assert(context_sources(ctx) =~= source_views(ctx.sources@));
            checks::lemma_entry_findings_meta(EntryCheck::TtlManagement, meta, rule_meta(), ctx.root@, source_views(ctx.sources@));
        }
    }
}

} // verus!
