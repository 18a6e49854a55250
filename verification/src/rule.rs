//! The rule interface and metadata.
use vstd::prelude::*;

use crate::category::Category;
use crate::confidence::Confidence;
use crate::context::AnalysisContext;
use crate::finding::{Finding, FindingView};
use crate::model::ProjectKind;
use crate::rules::checks::finding_views;
use crate::source::{source_views, SourceView};
use crate::severity::Severity;

verus! {

/// Static metadata describing a rule.
#[derive(Debug, Clone, Copy, PartialEq, Eq)]
pub struct RuleMetadata {
    /// Stable rule identifier (for example `SS-001`).
    pub id: &'static str,
    /// Short title.
    pub title: &'static str,
    /// Description of the problem.
    pub description: &'static str,
    /// Category.
    pub category: Category,
    /// Default severity.
    pub default_severity: Severity,
    /// Default confidence.
    pub default_confidence: Confidence,
    /// Remediation guidance.
    pub remediation: &'static str,
    /// External references.
    pub references: &'static [&'static str],
}

impl RuleMetadata {
    /// Creates metadata without references.
    pub fn new(
        id: &'static str,
        title: &'static str,
        description: &'static str,
        category: Category,
        default_severity: Severity,
        default_confidence: Confidence,
        remediation: &'static str,
    ) -> (r: Self)
        ensures
            r.id == id,
            r.title == title,
            r.description == description,
            r.category == category,
            r.default_severity == default_severity,
            r.default_confidence == default_confidence,
            r.remediation == remediation,
            r.references@.len() == 0,
    {
        RuleMetadata {
            id,
            title,
            description,
            category,
            default_severity,
            default_confidence,
            remediation,
            references: &[],
        }
    }

    /// Attaches references.
    pub fn with_references(self, references: &'static [&'static str]) -> (r: Self)
        ensures
            r == (RuleMetadata { references, ..self }),
    {
        RuleMetadata { references, ..self }
    }
}

/// What a rule observes of an analysis context: the project's classification,
/// the scan root and the parsed sources.
pub struct ContextView {
    pub kind: ProjectKind,
    pub root: Seq<char>,
    pub sources: Seq<SourceView>,
}

/// The observable part of an analysis context.
pub open spec fn context_view(ctx: &AnalysisContext) -> ContextView {
    ContextView { kind: ctx.project.kind, root: ctx.root@, sources: source_views(ctx.sources@) }
}

/// A security rule.
///
/// Implementations must be deterministic and must never fabricate findings or
/// source locations. A rule observes the [`AnalysisContext`] and appends any
/// findings it can justify with concrete evidence.
pub trait Rule {
    /// The metadata this rule returns: rules are deterministic, so
    /// `metadata` returns this one value every time.
    open spec fn metadata_spec(&self) -> RuleMetadata {
        vstd::pervasive::arbitrary()
    }

    /// Returns this rule's metadata.
    fn metadata(&self) -> (r: RuleMetadata)
        ensures
            r == self.metadata_spec(),
    ;

    /// Whether [`Rule::analysis`] states exactly what `analyze` appends, and
    /// the rule is enabled by default. Rules that state nothing keep the
    /// default, `false`.
    open spec fn reports_exactly(&self) -> bool {
        false
    }

    /// The findings `analyze` appends on a context, where `reports_exactly`
    /// holds.
    open spec fn analysis(&self, c: ContextView) -> Seq<FindingView> {
        Seq::empty()
    }

    /// Analyzes the context, appending findings (earlier findings are kept).
    fn analyze(&self, ctx: &AnalysisContext<'_>, out: &mut Vec<Finding>)
        ensures
            finding_views(final(out)@).len() >= finding_views(old(out)@).len(),
            finding_views(final(out)@).take(old(out)@.len() as int) == finding_views(old(out)@),
            self.reports_exactly() ==> finding_views(final(out)@) == finding_views(old(out)@) + self.analysis(
                context_view(ctx),
            ),
    ;

    /// Whether the rule is enabled by default: the value `enabled_by_default`
    /// returns, every time.
    open spec fn default_enabled(&self) -> bool {
        vstd::pervasive::arbitrary()
    }

    /// Whether the rule is enabled by default. Each rule states it (there is
    /// no default body), so that which rules run can be stated exactly.
    fn enabled_by_default(&self) -> (r: bool)
        ensures
            r == self.default_enabled(),
            self.reports_exactly() ==> r,
    ;
}

} // verus!
