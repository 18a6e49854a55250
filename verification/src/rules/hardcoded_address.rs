//! SS-007: hardcoded Stellar account or contract address.
use vstd::prelude::*;

use crate::category::Category;
use crate::confidence::Confidence;
use crate::context::AnalysisContext;
use crate::finding::{str_views, Finding, FindingView};
use crate::model::ProjectKind;
use crate::rule::{context_view, ContextView, Rule, RuleMetadata};
use crate::source::source_views;
use crate::rules::checks::{self, context_sources, file_findings, finding_views, FileCheck};
use crate::severity::Severity;

verus! {

/// The metadata of this rule.
pub open spec fn is_metadata(m: RuleMetadata) -> bool {
    m.id@ == "SS-007"@
        && m.title@ == "Hardcoded Stellar account or contract address"@
        && m.description@ == "A string literal in the contract matches the shape of a Stellar account (`G...`) or contract (`C...`) address. Hardcoding an address bakes a fixed counterparty or administrator into the contract, preventing rotation and making the contract unsafe if that key or contract changes or is compromised. Addresses are public, so this is a design concern rather than a secret leak."@
        && m.category == Category::Configuration
        && m.default_severity == Severity::Medium
        && m.default_confidence == Confidence::Low
        && m.remediation@ == "Store addresses in contract storage or pass them as parameters, and validate them against stored configuration. If an address must be a compile-time constant, document the operational plan for rotation and key compromise."@
        && m.references@.len() == 1
        && m.references@[0]@ == "https://developers.stellar.org/docs/learn/encyclopedia/security"@
}

/// This rule's metadata value.
pub open spec fn meta_value() -> RuleMetadata {
    RuleMetadata {
        id: "SS-007",
        title: "Hardcoded Stellar account or contract address",
        description: "A string literal in the contract matches the shape of a Stellar account (`G...`) or contract (`C...`) address. Hardcoding an address bakes a fixed counterparty or administrator into the contract, preventing rotation and making the contract unsafe if that key or contract changes or is compromised. Addresses are public, so this is a design concern rather than a secret leak.",
        category: Category::Configuration,
        default_severity: Severity::Medium,
        default_confidence: Confidence::Low,
        remediation: "Store addresses in contract storage or pass them as parameters, and validate them against stored configuration. If an address must be a compile-time constant, document the operational plan for rotation and key compromise.",
        references: &["https://developers.stellar.org/docs/learn/encyclopedia/security"],
    }
}

/// Rule metadata.
pub fn metadata() -> (r: RuleMetadata)
    ensures
        is_metadata(r),
        r == meta_value(),
{
    RuleMetadata {
        id: "SS-007",
        title: "Hardcoded Stellar account or contract address",
        description: "A string literal in the contract matches the shape of a Stellar account (`G...`) or contract (`C...`) address. Hardcoding an address bakes a fixed counterparty or administrator into the contract, preventing rotation and making the contract unsafe if that key or contract changes or is compromised. Addresses are public, so this is a design concern rather than a secret leak.",
        category: Category::Configuration,
        default_severity: Severity::Medium,
        default_confidence: Confidence::Low,
        remediation: "Store addresses in contract storage or pass them as parameters, and validate them against stored configuration. If an address must be a compile-time constant, document the operational plan for rotation and key compromise.",
        references: &["https://developers.stellar.org/docs/learn/encyclopedia/security"],
    }
}

/// This rule's metadata, as a value with its text.
pub open spec fn rule_meta() -> RuleMetadata {
    choose|m: RuleMetadata| is_metadata(m)
}

/// The findings of this rule on an observed context: none unless the project
/// is a confirmed Soroban contract.
pub open spec fn findings(c: ContextView) -> Seq<FindingView> {
    if c.kind == ProjectKind::ConfirmedSoroban {
        file_findings(FileCheck::HardcodedAddress, rule_meta(), c.root, c.sources)
    } else {
        Seq::empty()
    }
}

/// Detects hardcoded Stellar strkeys in contract source.
#[derive(Debug, Clone, Copy, Default)]
pub struct HardcodedAddress;

impl Rule for HardcodedAddress {
    open spec fn metadata_spec(&self) -> RuleMetadata {
        meta_value()
    }

    open spec fn default_enabled(&self) -> bool {
        true
    }

    fn enabled_by_default(&self) -> (r: bool) {
        true
    }

    open spec fn reports_exactly(&self) -> bool {
        true
    }

    open spec fn analysis(&self, c: ContextView) -> Seq<FindingView> {
        findings(c)
    }

    fn metadata(&self) -> (r: RuleMetadata) {
        metadata()
    }

    fn analyze(&self, ctx: &AnalysisContext<'_>, out: &mut Vec<Finding>) {
        let meta = metadata();
        if !ctx.is_confirmed_soroban() {
            assert(finding_views(out@) =~= finding_views(out@) + findings(context_view(ctx)));
            return;
        }
        checks::file_check_findings(FileCheck::HardcodedAddress, &meta, ctx, out);
        proof {
            assert(str_views(meta.references@) =~= str_views(rule_meta().references@));
            assert(context_sources(ctx) =~= source_views(ctx.sources@));
            checks::lemma_file_findings_meta(FileCheck::HardcodedAddress, meta, rule_meta(), ctx.root@, source_views(ctx.sources@));
        }
    }
}

} // verus!
