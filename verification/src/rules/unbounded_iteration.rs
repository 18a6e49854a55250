//! SS-003: unbounded storage iteration in an entry point.
use vstd::prelude::*;

use crate::category::Category;
use crate::confidence::Confidence;
use crate::context::AnalysisContext;
use crate::finding::{str_views, Finding, FindingView};
use crate::model::ProjectKind;
use crate::rule::{context_view, ContextView, Rule, RuleMetadata};
use crate::source::source_views;
use crate::rules::checks::{self, context_sources, entry_findings, finding_views, EntryCheck};
use crate::severity::Severity;

verus! {

/// The metadata of this rule.
pub open spec fn is_metadata(m: RuleMetadata) -> bool {
    m.id@ == "SS-003"@
        && m.title@ == "Unbounded storage iteration in an entry point"@
        && m.description@ == "A contract entry point iterates over storage. If the iterated collection grows without bound, the operation's resource cost grows with it and may exceed Soroban's ledger entry, CPU, or memory limits, causing the entry point to fail (a denial of service). Soroban does not provide storage enumeration in the same way as some platforms, so patterns that loop over persistent collections built by the contract are the usual cause."@
        && m.category == Category::ResourceUsage
        && m.default_severity == Severity::Medium
        && m.default_confidence == Confidence::Low
        && m.remediation@ == "Bound the amount of work performed per invocation: paginate with an explicit limit, maintain aggregate values instead of scanning, or cap the number of entries processed and return partial results. Ensure any loop over storage is bounded by a value the contract controls."@
        && m.references@.len() == 1
        && m.references@[0]@ == "https://developers.stellar.org/docs/learn/encyclopedia/security/resource-limits"@
}

/// This rule's metadata value.
pub open spec fn meta_value() -> RuleMetadata {
    RuleMetadata {
        id: "SS-003",
        title: "Unbounded storage iteration in an entry point",
        description: "A contract entry point iterates over storage. If the iterated collection grows without bound, the operation's resource cost grows with it and may exceed Soroban's ledger entry, CPU, or memory limits, causing the entry point to fail (a denial of service). Soroban does not provide storage enumeration in the same way as some platforms, so patterns that loop over persistent collections built by the contract are the usual cause.",
        category: Category::ResourceUsage,
        default_severity: Severity::Medium,
        default_confidence: Confidence::Low,
        remediation: "Bound the amount of work performed per invocation: paginate with an explicit limit, maintain aggregate values instead of scanning, or cap the number of entries processed and return partial results. Ensure any loop over storage is bounded by a value the contract controls.",
        references: &["https://developers.stellar.org/docs/learn/encyclopedia/security/resource-limits"],
    }
}

/// Rule metadata.
pub fn metadata() -> (r: RuleMetadata)
    ensures
        is_metadata(r),
        r == meta_value(),
{
    RuleMetadata {
        id: "SS-003",
        title: "Unbounded storage iteration in an entry point",
        description: "A contract entry point iterates over storage. If the iterated collection grows without bound, the operation's resource cost grows with it and may exceed Soroban's ledger entry, CPU, or memory limits, causing the entry point to fail (a denial of service). Soroban does not provide storage enumeration in the same way as some platforms, so patterns that loop over persistent collections built by the contract are the usual cause.",
        category: Category::ResourceUsage,
        default_severity: Severity::Medium,
        default_confidence: Confidence::Low,
        remediation: "Bound the amount of work performed per invocation: paginate with an explicit limit, maintain aggregate values instead of scanning, or cap the number of entries processed and return partial results. Ensure any loop over storage is bounded by a value the contract controls.",
        references: &["https://developers.stellar.org/docs/learn/encyclopedia/security/resource-limits"],
    }
}

/// This rule's metadata, as a value with its text.
pub open spec fn rule_meta() -> RuleMetadata {
    choose|m: RuleMetadata| is_metadata(m)
}

/// The findings of this rule on an observed context: none unless the project
/// is a confirmed Soroban contract.
pub open spec fn findings(c: ContextView) -> Seq<FindingView> {
    if c.kind == ProjectKind::ConfirmedSoroban {
        entry_findings(EntryCheck::UnboundedIteration, rule_meta(), c.root, c.sources)
    } else {
        Seq::empty()
    }
}

/// Detects storage iteration inside contract entry points.
#[derive(Debug, Clone, Copy, Default)]
pub struct UnboundedIteration;

impl Rule for UnboundedIteration {
    open spec fn metadata_spec(&self) -> RuleMetadata {
        meta_value()
    }

    open spec fn default_enabled(&self) -> bool {
        true
    }

    fn enabled_by_default(&self) -> (r: bool) {
        true
    }

    open spec fn reports_exactly(&self) -> bool {
        true
    }

    open spec fn analysis(&self, c: ContextView) -> Seq<FindingView> {
        findings(c)
    }

    fn metadata(&self) -> (r: RuleMetadata) {
        metadata()
    }

    fn analyze(&self, ctx: &AnalysisContext<'_>, out: &mut Vec<Finding>) {
        let meta = metadata();
        if !ctx.is_confirmed_soroban() {
            assert(finding_views(out@) =~= finding_views(out@) + findings(context_view(ctx)));
            return;
        }
        checks::entry_point_findings(EntryCheck::UnboundedIteration, &meta, ctx, out);
        proof {
            assert(str_views(meta.references@) =~= str_views(rule_meta().references@));
            assert(context_sources(ctx) =~= source_views(ctx.sources@));
            checks::lemma_entry_findings_meta(EntryCheck::UnboundedIteration, meta, rule_meta(), ctx.root@, source_views(ctx.sources@));
        }
    }
}

} // verus!
