//! SS-004: panic-prone constructs in a contract entry point.
use vstd::prelude::*;

use crate::category::Category;
use crate::confidence::Confidence;
use crate::context::AnalysisContext;
use crate::finding::{str_views, Finding, FindingView};
use crate::model::ProjectKind;
use crate::rule::{context_view, ContextView, Rule, RuleMetadata};
use crate::source::source_views;
use crate::rules::checks::{self, context_sources, entry_findings, finding_views, EntryCheck};
use crate::severity::Severity;

verus! {

/// The metadata of this rule.
pub open spec fn is_metadata(m: RuleMetadata) -> bool {
    m.id@ == "SS-004"@
        && m.title@ == "Panic-prone construct in a contract entry point"@
        && m.description@ == "A contract entry point calls `unwrap`, `expect`, `panic!`, `todo!`, `unimplemented!`, or `unreachable!`. In Soroban these abort the invocation and roll back state. When reachable from normal input, this turns a recoverable error condition into a failed transaction (a denial of service). This is a code-quality signal rather than proof of a vulnerability."@
        && m.category == Category::ErrorHandling
        && m.default_severity == Severity::Low
        && m.default_confidence == Confidence::Medium
        && m.remediation@ == "Return a `Result` with a typed contract error instead of panicking, so callers can handle failure. Replace `unwrap`/`expect` on fallible operations with `?`, `unwrap_or`, `unwrap_or_default`, or explicit matching."@
        && m.references@.len() == 1
        && m.references@[0]@ == "https://developers.stellar.org/docs/learn/encyclopedia/errors-and-fees"@
}

/// This rule's metadata value.
pub open spec fn meta_value() -> RuleMetadata {
    RuleMetadata {
        id: "SS-004",
        title: "Panic-prone construct in a contract entry point",
        description: "A contract entry point calls `unwrap`, `expect`, `panic!`, `todo!`, `unimplemented!`, or `unreachable!`. In Soroban these abort the invocation and roll back state. When reachable from normal input, this turns a recoverable error condition into a failed transaction (a denial of service). This is a code-quality signal rather than proof of a vulnerability.",
        category: Category::ErrorHandling,
        default_severity: Severity::Low,
        default_confidence: Confidence::Medium,
        remediation: "Return a `Result` with a typed contract error instead of panicking, so callers can handle failure. Replace `unwrap`/`expect` on fallible operations with `?`, `unwrap_or`, `unwrap_or_default`, or explicit matching.",
        references: &["https://developers.stellar.org/docs/learn/encyclopedia/errors-and-fees"],
    }
}

/// Rule metadata.
pub fn metadata() -> (r: RuleMetadata)
    ensures
        is_metadata(r),
        r == meta_value(),
{
    RuleMetadata {
        id: "SS-004",
        title: "Panic-prone construct in a contract entry point",
        description: "A contract entry point calls `unwrap`, `expect`, `panic!`, `todo!`, `unimplemented!`, or `unreachable!`. In Soroban these abort the invocation and roll back state. When reachable from normal input, this turns a recoverable error condition into a failed transaction (a denial of service). This is a code-quality signal rather than proof of a vulnerability.",
        category: Category::ErrorHandling,
        default_severity: Severity::Low,
        default_confidence: Confidence::Medium,
        remediation: "Return a `Result` with a typed contract error instead of panicking, so callers can handle failure. Replace `unwrap`/`expect` on fallible operations with `?`, `unwrap_or`, `unwrap_or_default`, or explicit matching.",
        references: &["https://developers.stellar.org/docs/learn/encyclopedia/errors-and-fees"],
    }
}

/// This rule's metadata, as a value with its text.
pub open spec fn rule_meta() -> RuleMetadata {
    choose|m: RuleMetadata| is_metadata(m)
}

/// The findings of this rule on an observed context: none unless the project
/// is a confirmed Soroban contract.
pub open spec fn findings(c: ContextView) -> Seq<FindingView> {
    if c.kind == ProjectKind::ConfirmedSoroban {
        entry_findings(EntryCheck::PanicProne, rule_meta(), c.root, c.sources)
    } else {
        Seq::empty()
    }
}

/// Detects panic-prone constructs inside contract entry points.
#[derive(Debug, Clone, Copy, Default)]
pub struct PanicProne;

impl Rule for PanicProne {
    open spec fn metadata_spec(&self) -> RuleMetadata {
        meta_value()
    }

    open spec fn default_enabled(&self) -> bool {
        true
    }

    fn enabled_by_default(&self) -> (r: bool) {
        true
    }

    open spec fn reports_exactly(&self) -> bool {
        true
    }

    open spec fn analysis(&self, c: ContextView) -> Seq<FindingView> {
        findings(c)
    }

    fn metadata(&self) -> (r: RuleMetadata) {
        metadata()
    }

    fn analyze(&self, ctx: &AnalysisContext<'_>, out: &mut Vec<Finding>) {
        let meta = metadata();
        if !ctx.is_confirmed_soroban() {
            assert(finding_views(out@) =~= finding_views(out@) + findings(context_view(ctx)));
            return;
        }
        checks::entry_point_findings(EntryCheck::PanicProne, &meta, ctx, out);
        proof {
            assert(str_views(meta.references@) =~= str_views(rule_meta().references@));
            assert(context_sources(ctx) =~= source_views(ctx.sources@));
            checks::lemma_entry_findings_meta(EntryCheck::PanicProne, meta, rule_meta(), ctx.root@, source_views(ctx.sources@));
        }
    }
}

} // verus!
