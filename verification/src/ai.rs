//! Optional assistance layer.
//!
//! The deterministic engine is authoritative: assistance never creates,
//! removes, or overrides findings, is off by default, never performs network
//! access on its own, and is derived only from existing findings and rule
//! metadata. Enabling a model-backed provider without a configured,
//! available provider fails closed.
//!
//! This module ships an offline, rule-based guidance assistant.
use vstd::prelude::*;

use crate::category::{category_index, category_name, Category};
use crate::confidence::{confidence_level, confidence_name};
use crate::finding::{location_label, str_views, Finding, FindingView};
use crate::report::{count_rank, severity_counts};
use crate::rule::RuleMetadata;
use crate::rules::checks::finding_views;
use crate::severity::{severity_name, severity_rank};
use crate::text::{self, decimal};

verus! {

/// Label prepended to all offline (non-model) guidance.
pub const OFFLINE_LABEL: &'static str = "GUIDANCE (offline, rule-based)";

/// Label prepended to model-generated text.
pub const AI_LABEL: &'static str = "AI-GENERATED ASSISTANCE (not authoritative)";

/// Configuration for the optional assistance layer.
#[derive(Debug, Clone, PartialEq, Eq)]
pub struct AiConfig {
    /// Master switch. Disabled by default.
    pub enabled: bool,
    /// Provider name (for example `openai`). No provider is bundled.
    pub provider: Option<String>,
    /// Model identifier.
    pub model: Option<String>,
}

impl Default for AiConfig {
    fn default() -> (r: Self)
        ensures
            !r.enabled,
            r.provider.is_none(),
            r.model.is_none(),
    {
        AiConfig { enabled: false, provider: None, model: None }
    }
}

/// Errors from the assistance layer.
#[derive(Debug, PartialEq, Eq)]
pub enum AiError {
    /// Assistance was enabled but no provider is configured.
    NotConfigured,
    /// A provider was named but is not available in this build.
    ProviderUnavailable(String),
}

impl AiError {
    /// The error message.
    pub fn display_text(&self) -> (r: String)
        ensures
            r@ == match self {
                AiError::NotConfigured => "assistance is enabled but no provider is configured"@,
                AiError::ProviderUnavailable(p) => "assistance provider '"@ + p@
                    + "' is not available in this build"@,
            },
    {
        match self {
            AiError::NotConfigured => text::owned("assistance is enabled but no provider is configured"),
            AiError::ProviderUnavailable(p) => {
                let mut r = text::concat2("assistance provider '", p.as_str());
                text::push_str(&mut r, "' is not available in this build");
                r
            },
        }
    }
}

/// A clearly labeled piece of assistance text.
#[derive(Debug, Clone, PartialEq, Eq)]
pub struct Explanation {
    /// The text.
    pub text: String,
    /// Whether the text came from a model (true) or from offline rules (false).
    pub ai_generated: bool,
    /// Human-readable label placed before the text.
    pub label: &'static str,
}

impl Explanation {
    /// Renders the label and text.
    pub fn render(&self) -> (r: String)
        ensures
            r@ == self.label@ + "\n\n"@ + self.text@,
    {
        let mut r = text::owned(self.label);
        text::push_str(&mut r, "\n\n");
        text::push_str(&mut r, self.text.as_str());
        r
    }
}

/// An assistance provider.
///
/// Implementations must never fabricate findings or locations, and must never
/// claim certainty beyond the underlying evidence.
pub trait Assistant {
    /// Provider name.
    fn name(&self) -> String;

    /// Explains a finding using its existing evidence and rule metadata.
    fn explain_finding(&self, finding: &Finding, rule: Option<&RuleMetadata>) -> Explanation;

    /// Summarizes a scan.
    fn summarize(&self, findings: &[Finding]) -> Explanation;
}

/// Offline, deterministic, rule-based guidance.
#[derive(Debug, Default, Clone, Copy)]
pub struct RuleGuidance;

/// The note added to high-severity, heuristic findings.
pub open spec fn heuristic_note() -> Seq<char> {
    "Note: this is a high-severity, heuristic finding. Review the code before treating it as a confirmed vulnerability.\n\n"@
}

/// The closing sentence of an explanation.
pub open spec fn explanation_footer() -> Seq<char> {
    "This guidance is derived from the rule documentation and the finding evidence. It is not an independent security judgment and does not change the deterministic result."@
}

/// The reference lines of an explanation.
pub open spec fn reference_lines(refs: Seq<Seq<char>>) -> Seq<char>
    decreases refs.len(),
{
    if refs.len() == 0 {
        Seq::empty()
    } else {
        reference_lines(refs.drop_last()) + "- "@ + refs.last() + "\n"@
    }
}

/// The explanation text of a finding.
pub open spec fn explanation_text(f: FindingView, rule: Option<RuleMetadata>) -> Seq<char> {
    f.rule_id + " at "@ + location_label(f.location) + " (severity: "@ + severity_name(f.severity)
        + ", confidence: "@ + confidence_name(f.confidence) + ").\n\n"@ + "What it means: "@
        + f.description + "\n\n"@ + "Evidence observed: "@ + f.evidence + "\n\n"@
        + "Suggested remediation: "@ + f.remediation + "\n\n"@ + (if severity_rank(f.severity) >= 3
        && confidence_level(f.confidence) <= 1 {
        heuristic_note()
    } else {
        Seq::empty()
    }) + (match rule {
        Some(m) => if m.references@.len() > 0 {
            "References:\n"@ + reference_lines(str_views(m.references@)) + "\n"@
        } else {
            Seq::empty()
        },
        None => Seq::empty(),
    }) + explanation_footer()
}

/// The category with a given declaration index.
pub open spec fn category_at(k: int) -> Category {
    if k == 0 {
        Category::Authorization
    } else if k == 1 {
        Category::Authentication
    } else if k == 2 {
        Category::AccessControl
    } else if k == 3 {
        Category::CrossContract
    } else if k == 4 {
        Category::Token
    } else if k == 5 {
        Category::Storage
    } else if k == 6 {
        Category::Arithmetic
    } else if k == 7 {
        Category::ErrorHandling
    } else if k == 8 {
        Category::Events
    } else if k == 9 {
        Category::ResourceUsage
    } else if k == 10 {
        Category::Configuration
    } else if k == 11 {
        Category::Dependencies
    } else {
        Category::Unsafe
    }
}

/// Every category, in declaration order.
fn all_categories() -> (r: Vec<Category>)
    ensures
        r@.len() == 13,
        forall|k: int| 0 <= k < 13 ==> #[trigger] r@[k] == category_at(k),
{
    let r = vec![
        Category::Authorization,
        Category::Authentication,
        Category::AccessControl,
        Category::CrossContract,
        Category::Token,
        Category::Storage,
        Category::Arithmetic,
        Category::ErrorHandling,
        Category::Events,
        Category::ResourceUsage,
        Category::Configuration,
        Category::Dependencies,
        Category::Unsafe,
    ];
    r
}

/// Some finding has the category.
pub open spec fn has_category(fs: Seq<FindingView>, c: Category) -> bool {
    exists|i: int| 0 <= i < fs.len() && #[trigger] fs[i].category == c
}

/// The categories observed among the findings, among the first `n` in
/// declaration order.
pub open spec fn observed(fs: Seq<FindingView>, n: int) -> Seq<Category>
    decreases n,
{
    if n <= 0 {
        Seq::empty()
    } else if has_category(fs, category_at(n - 1)) {
        observed(fs, n - 1).push(category_at(n - 1))
    } else {
        observed(fs, n - 1)
    }
}

/// The names of a list of categories joined by `, `.
pub open spec fn category_list(cs: Seq<Category>) -> Seq<char>
    decreases cs.len(),
{
    if cs.len() == 0 {
        Seq::empty()
    } else if cs.len() == 1 {
        category_name(cs[0])
    } else {
        category_list(cs.drop_last()) + ", "@ + category_name(cs.last())
    }
}

/// The summary text of a scan's findings: counts per severity, then the
/// distinct categories observed in declaration order.
pub open spec fn summary_text(fs: Seq<FindingView>) -> Seq<char> {
    let cats = observed(fs, 13);
    "Scanned with "@ + decimal(fs.len()) + " deterministic findings: critical "@ + decimal(
        count_rank(fs, 4),
    ) + ", high "@ + decimal(count_rank(fs, 3)) + ", medium "@ + decimal(count_rank(fs, 2))
        + ", low "@ + decimal(count_rank(fs, 1)) + ", info "@ + decimal(count_rank(fs, 0))
        + ".\n\n"@ + (if cats.len() == 0 {
        Seq::empty()
    } else {
        "Categories observed: "@ + category_list(cats) + ".\n\n"@
    })
        + "Prioritize critical and high findings first, and treat low-confidence findings as review prompts rather than confirmed vulnerabilities."@
}

impl RuleGuidance {
    fn explain_text(finding: &Finding, rule: Option<&RuleMetadata>) -> (r: String)
        ensures
            r@ == explanation_text(
                finding@,
                match rule {
                    Some(m) => Some(*m),
                    None => None,
                },
            ),
    {
        let mut t = String::new();
        text::push_str(&mut t, finding.rule_id.as_str());
        text::push_str(&mut t, " at ");
        let label = finding.location.display_label();
        text::push_str(&mut t, label.as_str());
        text::push_str(&mut t, " (severity: ");
        text::push_str(&mut t, finding.severity.as_str());
        text::push_str(&mut t, ", confidence: ");
        text::push_str(&mut t, finding.confidence.as_str());
        text::push_str(&mut t, ").\n\n");
        text::push_str(&mut t, "What it means: ");
        text::push_str(&mut t, finding.description.as_str());
        text::push_str(&mut t, "\n\n");
        text::push_str(&mut t, "Evidence observed: ");
        text::push_str(&mut t, finding.evidence.as_str());
        text::push_str(&mut t, "\n\n");
        text::push_str(&mut t, "Suggested remediation: ");
        text::push_str(&mut t, finding.remediation.as_str());
        text::push_str(&mut t, "\n\n");
        let ghost p1 = t@;
        if finding.severity.rank() >= 3 && !finding.confidence.at_least(crate::confidence::Confidence::High) {
            text::push_str(
                &mut t,
                "Note: this is a high-severity, heuristic finding. Review the code before treating it as a confirmed vulnerability.\n\n",
            );
        }
        let ghost p2 = t@;
        match rule {
            Some(m) => {
                if m.references.len() > 0 {
                    text::push_str(&mut t, "References:\n");
                    let ghost head = t@;
                    let ghost refs = str_views(m.references@);
                    let mut i: usize = 0;
                    while i < m.references.len()
                        invariant
                            i <= m.references@.len(),
                            refs == str_views(m.references@),
                            t@ == head + reference_lines(refs.take(i as int)),
                        decreases m.references@.len() - i,
                    {
                        assert(refs.take(i + 1).drop_last() =~= refs.take(i as int));
                        text::push_str(&mut t, "- ");
                        text::push_str(&mut t, m.references[i]);
                        text::push_str(&mut t, "\n");
                        i = i + 1;
                        assert(t@ =~= head + reference_lines(refs.take(i as int)));
                    }
                    assert(refs.take(m.references@.len() as int) =~= refs);
                    text::push_str(&mut t, "\n");
                }
            },
            None => {},
        }
        text::push_str(
            &mut t,
            "This guidance is derived from the rule documentation and the finding evidence. It is not an independent security judgment and does not change the deterministic result.",
        );
        proof {
            assert(t@ =~= explanation_text(
                finding@,
                match rule {
                    Some(m) => Some(*m),
                    None => None,
                },
            ));
        }
        t
    }

    fn summary(findings: &[Finding]) -> (r: String)
        ensures
            r@ == summary_text(findings@.map_values(|f: Finding| f@)),
    {
        let ghost fs = findings@.map_values(|f: Finding| f@);
        let counts = severity_counts(findings);
        let mut t = text::owned("Scanned with ");
        text::push_usize(&mut t, findings.len());
        text::push_str(&mut t, " deterministic findings: critical ");
        text::push_usize(&mut t, counts[4]);
        text::push_str(&mut t, ", high ");
        text::push_usize(&mut t, counts[3]);
        text::push_str(&mut t, ", medium ");
        text::push_usize(&mut t, counts[2]);
        text::push_str(&mut t, ", low ");
        text::push_usize(&mut t, counts[1]);
        text::push_str(&mut t, ", info ");
        text::push_usize(&mut t, counts[0]);
        text::push_str(&mut t, ".\n\n");
        let all = all_categories();
        let mut cats: Vec<Category> = Vec::new();
        let mut k: usize = 0;
        while k < 13
            invariant
                k <= 13,
                all@.len() == 13,
                forall|q: int| 0 <= q < 13 ==> #[trigger] all@[q] == category_at(q),
                fs == findings@.map_values(|f: Finding| f@),
                cats@ == observed(fs, k as int),
            decreases 13 - k,
        {
            let c = all[k];
            let mut present = false;
            let mut i: usize = 0;
            while i < findings.len()
                invariant
                    i <= findings@.len(),
                    fs == findings@.map_values(|f: Finding| f@),
                    present == exists|q: int| 0 <= q < i && #[trigger] fs[q].category == c,
                decreases findings@.len() - i,
            {
                assert(fs[i as int].category == findings@[i as int].category);
                if findings[i].category == c {
                    present = true;
                }
                i = i + 1;
            }
            assert(present == has_category(fs, category_at(k as int)));
            if present {
                cats.push(c);
            }
            k = k + 1;
        }
        let ghost head = t@;
        if cats.len() > 0 {
            text::push_str(&mut t, "Categories observed: ");
            let ghost h2 = t@;
            let mut i: usize = 0;
            while i < cats.len()
                invariant
                    i <= cats@.len(),
                    t@ == h2 + category_list(cats@.take(i as int)),
                decreases cats@.len() - i,
            {
                assert(cats@.take(i + 1).drop_last() =~= cats@.take(i as int));
                if i > 0 {
                    text::push_str(&mut t, ", ");
                }
                text::push_str(&mut t, cats[i].as_str());
                i = i + 1;
                assert(t@ =~= h2 + category_list(cats@.take(i as int)));
            }
            assert(cats@.take(cats@.len() as int) =~= cats@);
            text::push_str(&mut t, ".\n\n");
        }
        text::push_str(
            &mut t,
            "Prioritize critical and high findings first, and treat low-confidence findings as review prompts rather than confirmed vulnerabilities.",
        );
        assert(t@ =~= summary_text(fs));
        t
    }
}

impl Assistant for RuleGuidance {
    fn name(&self) -> (r: String)
        ensures
            r@ == "rule-guidance"@,
    {
        text::owned("rule-guidance")
    }

    fn explain_finding(&self, finding: &Finding, rule: Option<&RuleMetadata>) -> (r: Explanation)
        ensures
            !r.ai_generated,
            r.label@ == "GUIDANCE (offline, rule-based)"@,
            r.text@ == explanation_text(
                finding@,
                match rule {
                    Some(m) => Some(*m),
                    None => None,
                },
            ),
    {
        Explanation { text: RuleGuidance::explain_text(finding, rule), ai_generated: false, label: OFFLINE_LABEL }
    }

    fn summarize(&self, findings: &[Finding]) -> (r: Explanation)
        ensures
            !r.ai_generated,
            r.label@ == "GUIDANCE (offline, rule-based)"@,
            r.text@ == summary_text(findings@.map_values(|f: Finding| f@)),
    {
        Explanation { text: RuleGuidance::summary(findings), ai_generated: false, label: OFFLINE_LABEL }
    }
}

/// Builds the configured assistant.
///
/// Returns offline [`RuleGuidance`] when assistance is disabled. When
/// assistance is enabled it fails closed: no model-backed provider is bundled.
pub fn assistant(config: &AiConfig) -> (r: Result<RuleGuidance, AiError>)
    ensures
        !config.enabled ==> r is Ok,
        config.enabled ==> match config.provider {
            None => r == Err::<RuleGuidance, AiError>(AiError::NotConfigured),
            Some(p) => r matches Err(AiError::ProviderUnavailable(q)) && q@ == p@,
        },
{
    if !config.enabled {
        return Ok(RuleGuidance);
    }
    match &config.provider {
        None => Err(AiError::NotConfigured),
        Some(provider) => Err(AiError::ProviderUnavailable(provider.clone())),
    }
}

} // verus!
