//! Reporting: terminal and Markdown renderers, and the content of SARIF
//! reports.
//!
//! No renderer ever emits environment variables, absolute user paths, or
//! secrets.
use vstd::prelude::*;

use crate::category::category_name;
use crate::confidence::confidence_name;
use crate::engine::ScanOutcome;
use crate::finding::{location_label, slash_path, str_views, views, Finding, FindingView};
use crate::model::{project_kind_name, DiagnosticView};
use crate::rule::RuleMetadata;
use crate::rules::checks::finding_views;
use crate::severity::{severity_name, severity_rank, Severity};
use crate::source::diagnostic_views;
use crate::text::{self, decimal, has_prefix, lower, trimmed};

verus! {

/// Tool homepage used in reports.
pub const TOOL_URL: &'static str = "https://github.com/AyinkxLab/soroban-security-scanner";

/// SARIF schema URI.
pub const SARIF_SCHEMA: &'static str = "https://json.schemastore.org/sarif-2.1.0.json";

/// Output format for scan results.
#[derive(Debug, Clone, Copy, PartialEq, Eq, Structural)]
pub enum OutputFormat {
    /// Human-readable terminal text.
    Terminal,
    /// Stable JSON.
    Json,
    /// SARIF 2.1.0 for code scanning.
    Sarif,
    /// Markdown report.
    Markdown,
}

/// The format a (trimmed, lowercased) name selects.
pub open spec fn format_of(n: Seq<char>) -> Option<OutputFormat> {
    if n == "terminal"@ || n == "text"@ {
        Some(OutputFormat::Terminal)
    } else if n == "json"@ {
        Some(OutputFormat::Json)
    } else if n == "sarif"@ {
        Some(OutputFormat::Sarif)
    } else if n == "markdown"@ || n == "md"@ {
        Some(OutputFormat::Markdown)
    } else {
        None
    }
}

/// The stable name of a format.
pub open spec fn format_name(f: OutputFormat) -> Seq<char> {
    match f {
        OutputFormat::Terminal => "terminal"@,
        OutputFormat::Json => "json"@,
        OutputFormat::Sarif => "sarif"@,
        OutputFormat::Markdown => "markdown"@,
    }
}

impl OutputFormat {
    /// Parses a format name, ignoring case and surrounding whitespace.
    pub fn parse(value: &str) -> (r: Result<Self, String>)
        ensures
            match format_of(lower(trimmed(value@))) {
                Some(f) => r == Ok::<OutputFormat, String>(f),
                None => r matches Err(e) && e@ == "unknown output format: "@ + lower(trimmed(value@)),
            },
    {
        let t = text::trim(value);
        let n = text::to_lower(t.as_str());
        let n = n.as_str();
        if text::str_eq(n, "terminal") || text::str_eq(n, "text") {
            Ok(OutputFormat::Terminal)
        } else if text::str_eq(n, "json") {
            Ok(OutputFormat::Json)
        } else if text::str_eq(n, "sarif") {
            Ok(OutputFormat::Sarif)
        } else if text::str_eq(n, "markdown") || text::str_eq(n, "md") {
            Ok(OutputFormat::Markdown)
        } else {
            Err(text::concat2("unknown output format: ", n))
        }
    }

    /// Stable lowercase name.
    pub fn as_str(self) -> (r: &'static str)
        ensures
            r@ == format_name(self),
    {
        match self {
            OutputFormat::Terminal => "terminal",
            OutputFormat::Json => "json",
            OutputFormat::Sarif => "sarif",
            OutputFormat::Markdown => "markdown",
        }
    }
}

// ---------------------------------------------------------------------------
// Counts and summaries.
// ---------------------------------------------------------------------------
/// Number of findings of severity rank `k`.
pub open spec fn count_rank(fs: Seq<FindingView>, k: nat) -> nat
    decreases fs.len(),
{
    if fs.len() == 0 {
        0
    } else {
        count_rank(fs.drop_last(), k) + if severity_rank(fs.last().severity) == k {
            1nat
        } else {
            0nat
        }
    }
}

proof fn lemma_count_bound(fs: Seq<FindingView>, k: nat)
    ensures
        count_rank(fs, k) <= fs.len(),
    decreases fs.len(),
{
    if fs.len() > 0 {
        lemma_count_bound(fs.drop_last(), k);
    }
}

/// Counts findings per severity, indexed by severity rank (info = 0).
pub fn severity_counts(findings: &[Finding]) -> (r: [usize; 5])
    ensures
        forall|k: int| 0 <= k < 5 ==> #[trigger] r@[k] == count_rank(findings@.map_values(|f: Finding| f@), k as nat),
{
    let ghost fs = findings@.map_values(|f: Finding| f@);
    let mut counts: [usize; 5] = [0, 0, 0, 0, 0];
    let mut i: usize = 0;
    while i < findings.len()
        invariant
            i <= findings@.len(),
            fs == findings@.map_values(|f: Finding| f@),
            forall|k: int| 0 <= k < 5 ==> #[trigger] counts@[k] == count_rank(fs.take(i as int), k as nat),
        decreases findings@.len() - i,
    {
        assert(fs.take(i + 1).drop_last() =~= fs.take(i as int));
        assert(fs[i as int].severity == findings[i as int].severity);
        proof {
            lemma_count_bound(fs.take(i as int), severity_rank(findings[i as int].severity));
        }
        let k = findings[i].severity.rank() as usize;
        counts[k] = counts[k] + 1;
        i = i + 1;
    }
    assert(fs.take(findings@.len() as int) =~= fs);
    counts
}

/// The one-line summary of a list of findings.
pub open spec fn summary_spec(fs: Seq<FindingView>) -> Seq<char> {
    decimal(fs.len()) + " finding(s) — critical: "@ + decimal(count_rank(fs, 4)) + ", high: "@ + decimal(
        count_rank(fs, 3),
    ) + ", medium: "@ + decimal(count_rank(fs, 2)) + ", low: "@ + decimal(count_rank(fs, 1))
        + ", info: "@ + decimal(count_rank(fs, 0))
}

/// Renders a concise human-readable summary line.
pub fn summary_line(findings: &[Finding]) -> (r: String)
    ensures
        r@ == summary_spec(findings@.map_values(|f: Finding| f@)),
{
    let counts = severity_counts(findings);
    let mut out = text::usize_to_string(findings.len());
    text::push_str(&mut out, " finding(s) — critical: ");
    text::push_usize(&mut out, counts[4]);
    text::push_str(&mut out, ", high: ");
    text::push_usize(&mut out, counts[3]);
    text::push_str(&mut out, ", medium: ");
    text::push_usize(&mut out, counts[2]);
    text::push_str(&mut out, ", low: ");
    text::push_usize(&mut out, counts[1]);
    text::push_str(&mut out, ", info: ");
    text::push_usize(&mut out, counts[0]);
    out
}

// ---------------------------------------------------------------------------
// Terminal report.
// ---------------------------------------------------------------------------
/// `s` padded with spaces on the right to at least `w` characters.
pub open spec fn pad(s: Seq<char>, w: nat) -> Seq<char> {
    if s.len() >= w {
        s
    } else {
        s + Seq::new((w - s.len()) as nat, |i: int| ' ')
    }
}

/// Appends `s` padded on the right to at least `w` characters.
fn push_padded(out: &mut String, s: &str, w: usize)
    ensures
        final(out)@ == old(out)@ + pad(s@, w as nat),
{
    let cs = text::chars_of(s);
    text::push_str(out, s);
    let mut n = cs.len();
    let ghost base = old(out)@ + s@;
    while n < w
        invariant
            cs@ == s@,
            s@.len() <= n <= w || (n == s@.len() && n >= w),
            out@ == base + Seq::new((n - s@.len()) as nat, |i: int| ' '),
        decreases w - n,
    {
        text::push_char(out, ' ');
        n = n + 1;
        assert(out@ =~= base + Seq::new((n - s@.len()) as nat, |i: int| ' '));
    }
    assert(s@.len() >= w ==> out@ =~= old(out)@ + s@);
    assert(s@.len() < w ==> out@ =~= old(out)@ + pad(s@, w as nat));
}

/// The upper-case name of a severity.
pub open spec fn severity_upper(s: Severity) -> Seq<char> {
    match s {
        Severity::Info => "INFO"@,
        Severity::Low => "LOW"@,
        Severity::Medium => "MEDIUM"@,
        Severity::High => "HIGH"@,
        Severity::Critical => "CRITICAL"@,
    }
}

fn severity_upper_exec(s: Severity) -> (r: &'static str)
    ensures
        r@ == severity_upper(s),
{
    match s {
        Severity::Info => "INFO",
        Severity::Low => "LOW",
        Severity::Medium => "MEDIUM",
        Severity::High => "HIGH",
        Severity::Critical => "CRITICAL",
    }
}

/// The terminal block of one finding.
pub open spec fn terminal_block(f: FindingView) -> Seq<char> {
    pad(severity_upper(f.severity), 8) + " "@ + pad(f.rule_id, 7) + " "@ + location_label(f.location)
        + "\n"@ + "         "@ + f.title + "\n"@ + "         confidence: "@ + confidence_name(
        f.confidence,
    ) + "\n"@ + "         evidence: "@ + f.evidence + "\n"@ + "         fix: "@ + f.remediation
        + "\n\n"@
}

/// The terminal blocks of the findings.
pub open spec fn terminal_blocks(fs: Seq<FindingView>) -> Seq<char>
    decreases fs.len(),
{
    if fs.len() == 0 {
        Seq::empty()
    } else {
        terminal_blocks(fs.drop_last()) + terminal_block(fs.last())
    }
}

/// The diagnostic lines of a terminal report.
pub open spec fn diagnostic_lines(ds: Seq<DiagnosticView>) -> Seq<char>
    decreases ds.len(),
{
    if ds.len() == 0 {
        Seq::empty()
    } else {
        diagnostic_lines(ds.drop_last()) + "  - "@ + ds.last().message + "\n"@
    }
}

/// The terminal report of a scan outcome.
pub open spec fn terminal_spec(o: &ScanOutcome) -> Seq<char> {
    let fs = finding_views(o.findings@);
    let ds = diagnostic_views(o.diagnostics@);
    crate::tool_name_spec() + " "@ + crate::version_spec() + "\n"@ + "Project: "@ + o.project.root@
        + " ("@ + project_kind_name(o.project.kind) + ")\n"@ + "Files: "@ + decimal(
        o.stats.files_analyzed as nat,
    ) + "  Rules run: "@ + decimal(o.stats.rules_run as nat) + "  Skipped: "@ + decimal(
        o.stats.rules_skipped as nat,
    ) + "\n\n"@ + (if fs.len() == 0 {
        "No security findings.\n"@
    } else {
        terminal_blocks(fs) + summary_spec(fs) + "\n"@
    }) + (if ds.len() == 0 {
        Seq::empty()
    } else {
        "\n"@ + decimal(ds.len()) + " diagnostic(s):\n"@ + diagnostic_lines(ds)
    })
}

fn push_terminal_block(out: &mut String, f: &Finding)
    ensures
        final(out)@ == old(out)@ + terminal_block(f@),
{
    push_padded(out, severity_upper_exec(f.severity), 8);
    text::push_str(out, " ");
    push_padded(out, f.rule_id.as_str(), 7);
    text::push_str(out, " ");
    let label = f.location.display_label();
    text::push_str(out, label.as_str());
    text::push_str(out, "\n");
    text::push_str(out, "         ");
    text::push_str(out, f.title.as_str());
    text::push_str(out, "\n");
    text::push_str(out, "         confidence: ");
    text::push_str(out, f.confidence.as_str());
    text::push_str(out, "\n");
    text::push_str(out, "         evidence: ");
    text::push_str(out, f.evidence.as_str());
    text::push_str(out, "\n");
    text::push_str(out, "         fix: ");
    text::push_str(out, f.remediation.as_str());
    text::push_str(out, "\n\n");
    assert(final(out)@ =~= old(out)@ + terminal_block(f@));
}

/// Renders the terminal report.
pub fn render_terminal(outcome: &ScanOutcome) -> (r: String)
    ensures
        r@ == terminal_spec(outcome),
{
    let ghost fs = finding_views(outcome.findings@);
    let ghost ds = diagnostic_views(outcome.diagnostics@);
    let mut out = text::owned(crate::TOOL_NAME);
    text::push_str(&mut out, " ");
    text::push_str(&mut out, crate::VERSION);
    text::push_str(&mut out, "\n");
    text::push_str(&mut out, "Project: ");
    text::push_str(&mut out, outcome.project.root.as_str());
    text::push_str(&mut out, " (");
    text::push_str(&mut out, outcome.project.kind.as_str());
    text::push_str(&mut out, ")\n");
    text::push_str(&mut out, "Files: ");
    text::push_usize(&mut out, outcome.stats.files_analyzed);
    text::push_str(&mut out, "  Rules run: ");
    text::push_usize(&mut out, outcome.stats.rules_run);
    text::push_str(&mut out, "  Skipped: ");
    text::push_usize(&mut out, outcome.stats.rules_skipped);
    text::push_str(&mut out, "\n\n");
    let ghost head = out@;
    if outcome.findings.len() == 0 {
        text::push_str(&mut out, "No security findings.\n");
    } else {
        let mut i: usize = 0;
        while i < outcome.findings.len()
            invariant
                i <= outcome.findings@.len(),
                fs == finding_views(outcome.findings@),
                out@ == head + terminal_blocks(fs.take(i as int)),
            decreases outcome.findings@.len() - i,
        {
            assert(fs.take(i + 1).drop_last() =~= fs.take(i as int));
            assert(fs[i as int] == outcome.findings@[i as int]@);
            push_terminal_block(&mut out, &outcome.findings[i]);
            i = i + 1;
            assert(out@ =~= head + terminal_blocks(fs.take(i as int)));
        }
        assert(fs.take(outcome.findings@.len() as int) =~= fs);
        let s = summary_line(outcome.findings.as_slice());
        text::push_str(&mut out, s.as_str());
        text::push_str(&mut out, "\n");
    }
    let ghost mid = out@;
    if outcome.diagnostics.len() > 0 {
        text::push_str(&mut out, "\n");
        text::push_usize(&mut out, outcome.diagnostics.len());
        text::push_str(&mut out, " diagnostic(s):\n");
        let ghost dh = out@;
        let mut j: usize = 0;
        while j < outcome.diagnostics.len()
            invariant
                j <= outcome.diagnostics@.len(),
                ds == diagnostic_views(outcome.diagnostics@),
                out@ == dh + diagnostic_lines(ds.take(j as int)),
            decreases outcome.diagnostics@.len() - j,
        {
            assert(ds.take(j + 1).drop_last() =~= ds.take(j as int));
            assert(ds[j as int] == outcome.diagnostics@[j as int]@);
            text::push_str(&mut out, "  - ");
            text::push_str(&mut out, outcome.diagnostics[j].message.as_str());
            text::push_str(&mut out, "\n");
            j = j + 1;
            assert(out@ =~= dh + diagnostic_lines(ds.take(j as int)));
        }
        assert(ds.take(outcome.diagnostics@.len() as int) =~= ds);
    }
    assert(out@ =~= terminal_spec(outcome));
    out
}

/// The compact line of one finding.
pub open spec fn compact_line(f: FindingView) -> Seq<char> {
    severity_name(f.severity) + " "@ + f.rule_id + " "@ + location_label(f.location) + "\n"@
}

/// The compact lines of the findings.
pub open spec fn compact_lines(fs: Seq<FindingView>) -> Seq<char>
    decreases fs.len(),
{
    if fs.len() == 0 {
        Seq::empty()
    } else {
        compact_lines(fs.drop_last()) + compact_line(fs.last())
    }
}

/// Renders a compact terminal report (one line per finding).
pub fn render_terminal_compact(outcome: &ScanOutcome) -> (r: String)
    ensures
        r@ == compact_lines(finding_views(outcome.findings@)) + summary_spec(finding_views(outcome.findings@)) + "\n"@,
{
    let ghost fs = finding_views(outcome.findings@);
    let mut out = String::new();
    let mut i: usize = 0;
    while i < outcome.findings.len()
        invariant
            i <= outcome.findings@.len(),
            fs == finding_views(outcome.findings@),
            out@ == compact_lines(fs.take(i as int)),
        decreases outcome.findings@.len() - i,
    {
        assert(fs.take(i + 1).drop_last() =~= fs.take(i as int));
        let f = &outcome.findings[i];
        assert(fs[i as int] == f@);
        text::push_str(&mut out, f.severity.as_str());
        text::push_str(&mut out, " ");
        text::push_str(&mut out, f.rule_id.as_str());
        text::push_str(&mut out, " ");
        let label = f.location.display_label();
        text::push_str(&mut out, label.as_str());
        text::push_str(&mut out, "\n");
        i = i + 1;
        assert(out@ =~= compact_lines(fs.take(i as int)));
    }
    assert(fs.take(outcome.findings@.len() as int) =~= fs);
    let s = summary_line(outcome.findings.as_slice());
    text::push_str(&mut out, s.as_str());
    text::push_str(&mut out, "\n");
    out
}

// ---------------------------------------------------------------------------
// Markdown report.
// ---------------------------------------------------------------------------
/// The reference lines of a Markdown finding.
pub open spec fn md_reference_lines(refs: Seq<Seq<char>>) -> Seq<char>
    decreases refs.len(),
{
    if refs.len() == 0 {
        Seq::empty()
    } else {
        md_reference_lines(refs.drop_last()) + "  - <"@ + refs.last() + ">\n"@
    }
}

/// The Markdown section of one finding.
pub open spec fn md_block(f: FindingView) -> Seq<char> {
    md_head(f) + md_tail(f)
}

/// The references part of a Markdown finding section.
pub open spec fn md_tail(f: FindingView) -> Seq<char> {
    (if f.references.len() == 0 {
        Seq::empty()
    } else {
        "- **References:**\n"@ + md_reference_lines(f.references)
    }) + "\n"@
}

/// The fields part of a Markdown finding section.
pub open spec fn md_head(f: FindingView) -> Seq<char> {
    "### "@ + f.rule_id + " — "@ + f.title + "\n\n"@ + "- **Severity:** "@ + severity_name(f.severity)
        + "\n"@ + "- **Confidence:** "@ + confidence_name(f.confidence) + "\n"@ + "- **Category:** "@
        + category_name(f.category) + "\n"@ + "- **Location:** `"@ + location_label(f.location)
        + "`\n"@ + "- **Evidence:** "@ + f.evidence + "\n"@ + "- **Remediation:** "@ + f.remediation
        + "\n"@
}

/// The Markdown sections of the findings.
pub open spec fn md_blocks(fs: Seq<FindingView>) -> Seq<char>
    decreases fs.len(),
{
    if fs.len() == 0 {
        Seq::empty()
    } else {
        md_blocks(fs.drop_last()) + md_block(fs.last())
    }
}

/// One row of the Markdown summary table.
pub open spec fn md_row(s: Severity, fs: Seq<FindingView>) -> Seq<char> {
    "| "@ + severity_name(s) + " | "@ + decimal(count_rank(fs, severity_rank(s))) + " |\n"@
}

/// The Markdown report of a scan outcome.
pub open spec fn markdown_spec(o: &ScanOutcome) -> Seq<char> {
    let fs = finding_views(o.findings@);
    let head = "# Soroban Security Scan\n\n"@ + "- **Tool:** "@ + crate::tool_name_spec() + " "@
        + crate::version_spec() + "\n"@ + "- **Project:** `"@ + o.project.root@ + "` ("@
        + project_kind_name(o.project.kind) + ")\n"@ + "- **Files analyzed:** "@ + decimal(
        o.stats.files_analyzed as nat,
    ) + "\n"@ + "- **Findings:** "@ + decimal(fs.len()) + "\n\n"@ + "## Summary\n\n"@
        + "| Severity | Count |\n| -------- | ----- |\n"@ + md_row(Severity::Critical, fs) + md_row(
        Severity::High,
        fs,
    ) + md_row(Severity::Medium, fs) + md_row(Severity::Low, fs) + md_row(Severity::Info, fs)
        + "\n"@;
    if fs.len() == 0 {
        head + "No security findings.\n"@
    } else {
        head + "## Findings\n\n"@ + md_blocks(fs)
    }
}

fn push_md_block(out: &mut String, f: &Finding)
    ensures
        final(out)@ == old(out)@ + md_block(f@),
{
    push_md_head(out, f);
    push_md_tail(out, f);
    assert(final(out)@ =~= old(out)@ + md_block(f@));
}

fn push_md_head(out: &mut String, f: &Finding)
    ensures
        final(out)@ == old(out)@ + md_head(f@),
{
    text::push_str(out, "### ");
    text::push_str(out, f.rule_id.as_str());
    text::push_str(out, " — ");
    text::push_str(out, f.title.as_str());
    text::push_str(out, "\n\n");
    text::push_str(out, "- **Severity:** ");
    text::push_str(out, f.severity.as_str());
    text::push_str(out, "\n");
    text::push_str(out, "- **Confidence:** ");
    text::push_str(out, f.confidence.as_str());
    text::push_str(out, "\n");
    text::push_str(out, "- **Category:** ");
    text::push_str(out, f.category.as_str());
    text::push_str(out, "\n");
    text::push_str(out, "- **Location:** `");
    let label = f.location.display_label();
    text::push_str(out, label.as_str());
    text::push_str(out, "`\n");
    text::push_str(out, "- **Evidence:** ");
    text::push_str(out, f.evidence.as_str());
    text::push_str(out, "\n");
    text::push_str(out, "- **Remediation:** ");
    text::push_str(out, f.remediation.as_str());
    text::push_str(out, "\n");
    assert(final(out)@ =~= old(out)@ + md_head(f@));
}

fn push_md_tail(out: &mut String, f: &Finding)
    ensures
        final(out)@ == old(out)@ + md_tail(f@),
{
    if f.references.len() > 0 {
        text::push_str(out, "- **References:**\n");
        let ghost rh = out@;
        let ghost rv = views(f.references@);
        let mut i: usize = 0;
        while i < f.references.len()
            invariant
                i <= f.references@.len(),
                rv == views(f.references@),
                out@ == rh + md_reference_lines(rv.take(i as int)),
            decreases f.references@.len() - i,
        {
            assert(rv.take(i + 1).drop_last() =~= rv.take(i as int));
            text::push_str(out, "  - <");
            text::push_str(out, f.references[i].as_str());
            text::push_str(out, ">\n");
            i = i + 1;
            assert(out@ =~= rh + md_reference_lines(rv.take(i as int)));
        }
        assert(rv.take(f.references@.len() as int) =~= rv);
    }
    text::push_str(out, "\n");
    assert(final(out)@ =~= old(out)@ + md_tail(f@));
}

fn push_md_row(out: &mut String, s: Severity, counts: &[usize; 5], fs: Ghost<Seq<FindingView>>)
    requires
        forall|k: int| 0 <= k < 5 ==> #[trigger] counts@[k] == count_rank(fs@, k as nat),
    ensures
        final(out)@ == old(out)@ + md_row(s, fs@),
{
    text::push_str(out, "| ");
    text::push_str(out, s.as_str());
    text::push_str(out, " | ");
    let k = s.rank() as usize;
    assert(counts@[k as int] == count_rank(fs@, severity_rank(s)));
    text::push_usize(out, counts[k]);
    text::push_str(out, " |\n");
    assert(final(out)@ =~= old(out)@ + md_row(s, fs@));
}

/// Renders the Markdown report.
pub fn render_markdown(outcome: &ScanOutcome) -> (r: String)
    ensures
        r@ == markdown_spec(outcome),
{
    let ghost fs = finding_views(outcome.findings@);
    let counts = severity_counts(outcome.findings.as_slice());
    assert(outcome.findings@.map_values(|f: Finding| f@) =~= fs);
    let mut out = text::owned("# Soroban Security Scan\n\n");
    text::push_str(&mut out, "- **Tool:** ");
    text::push_str(&mut out, crate::TOOL_NAME);
    text::push_str(&mut out, " ");
    text::push_str(&mut out, crate::VERSION);
    text::push_str(&mut out, "\n");
    text::push_str(&mut out, "- **Project:** `");
    text::push_str(&mut out, outcome.project.root.as_str());
    text::push_str(&mut out, "` (");
    text::push_str(&mut out, outcome.project.kind.as_str());
    text::push_str(&mut out, ")\n");
    text::push_str(&mut out, "- **Files analyzed:** ");
    text::push_usize(&mut out, outcome.stats.files_analyzed);
    text::push_str(&mut out, "\n");
    text::push_str(&mut out, "- **Findings:** ");
    text::push_usize(&mut out, outcome.findings.len());
    text::push_str(&mut out, "\n\n");
    text::push_str(&mut out, "## Summary\n\n");
    text::push_str(&mut out, "| Severity | Count |\n| -------- | ----- |\n");
    push_md_row(&mut out, Severity::Critical, &counts, Ghost(fs));
    push_md_row(&mut out, Severity::High, &counts, Ghost(fs));
    push_md_row(&mut out, Severity::Medium, &counts, Ghost(fs));
    push_md_row(&mut out, Severity::Low, &counts, Ghost(fs));
    push_md_row(&mut out, Severity::Info, &counts, Ghost(fs));
    text::push_str(&mut out, "\n");
    if outcome.findings.len() == 0 {
        text::push_str(&mut out, "No security findings.\n");
        assert(out@ =~= markdown_spec(outcome));
        return out;
    }
    text::push_str(&mut out, "## Findings\n\n");
    let ghost head = out@;
    let mut i: usize = 0;
    while i < outcome.findings.len()
        invariant
            i <= outcome.findings@.len(),
            fs == finding_views(outcome.findings@),
            out@ == head + md_blocks(fs.take(i as int)),
        decreases outcome.findings@.len() - i,
    {
        assert(fs.take(i + 1).drop_last() =~= fs.take(i as int));
        assert(fs[i as int] == outcome.findings@[i as int]@);
        push_md_block(&mut out, &outcome.findings[i]);
        i = i + 1;
        assert(out@ =~= head + md_blocks(fs.take(i as int)));
    }
    assert(fs.take(outcome.findings@.len() as int) =~= fs);
    assert(out@ =~= markdown_spec(outcome));
    out
}

// ---------------------------------------------------------------------------
// Rule catalog.
// ---------------------------------------------------------------------------
/// One line of the rule list.
pub open spec fn rule_line(m: RuleMetadata) -> Seq<char> {
    pad(m.id@, 8) + " "@ + pad(severity_name(m.default_severity), 8) + " "@ + pad(
        confidence_name(m.default_confidence),
        10,
    ) + " "@ + m.title@ + "\n"@
}

/// The lines of the rule list.
pub open spec fn rule_lines(ms: Seq<RuleMetadata>) -> Seq<char>
    decreases ms.len(),
{
    if ms.len() == 0 {
        Seq::empty()
    } else {
        rule_lines(ms.drop_last()) + rule_line(ms.last())
    }
}

/// The header line of the rule list.
pub open spec fn rule_list_header() -> Seq<char> {
    pad("RULE"@, 8) + " "@ + pad("SEVERITY"@, 8) + " "@ + pad("CONFIDENCE"@, 10) + " "@ + "TITLE"@
        + "\n"@
}

fn push_rule_line(out: &mut String, m: &RuleMetadata)
    ensures
        final(out)@ == old(out)@ + rule_line(*m),
{
    push_padded(out, m.id, 8);
    text::push_str(out, " ");
    push_padded(out, m.default_severity.as_str(), 8);
    text::push_str(out, " ");
    push_padded(out, m.default_confidence.as_str(), 10);
    text::push_str(out, " ");
    text::push_str(out, m.title);
    text::push_str(out, "\n");
    assert(final(out)@ =~= old(out)@ + rule_line(*m));
}

/// Renders the rule catalog as a text table (for `soroban-scan rules`).
pub fn render_rule_list_text(metas: &[RuleMetadata]) -> (r: String)
    ensures
        r@ == rule_list_header() + rule_lines(metas@),
{
    let mut out = String::new();
    push_padded(&mut out, "RULE", 8);
    text::push_str(&mut out, " ");
    push_padded(&mut out, "SEVERITY", 8);
    text::push_str(&mut out, " ");
    push_padded(&mut out, "CONFIDENCE", 10);
    text::push_str(&mut out, " ");
    text::push_str(&mut out, "TITLE");
    text::push_str(&mut out, "\n");
    assert(out@ =~= rule_list_header());
    let ghost head = out@;
    let mut i: usize = 0;
    while i < metas.len()
        invariant
            i <= metas@.len(),
            out@ == head + rule_lines(metas@.take(i as int)),
        decreases metas@.len() - i,
    {
        assert(metas@.take(i + 1).drop_last() =~= metas@.take(i as int));
        push_rule_line(&mut out, &metas[i]);
        i = i + 1;
        assert(out@ =~= head + rule_lines(metas@.take(i as int)));
    }
    assert(metas@.take(metas@.len() as int) =~= metas@);
    out
}

/// The reference lines of a text rule detail.
pub open spec fn text_reference_lines(refs: Seq<Seq<char>>) -> Seq<char>
    decreases refs.len(),
{
    if refs.len() == 0 {
        Seq::empty()
    } else {
        text_reference_lines(refs.drop_last()) + "  - "@ + refs.last() + "\n"@
    }
}

/// The reference list of a Markdown rule detail: `- <url>` lines joined by newlines.
pub open spec fn md_reference_list(refs: Seq<Seq<char>>) -> Seq<char>
    decreases refs.len(),
{
    if refs.len() == 0 {
        Seq::empty()
    } else if refs.len() == 1 {
        "- <"@ + refs[0] + ">"@
    } else {
        md_reference_list(refs.drop_last()) + "\n"@ + "- <"@ + refs.last() + ">"@
    }
}

/// The detail page of a rule, in Markdown or (for any other format) text.
pub open spec fn rule_detail_spec(m: RuleMetadata, format: OutputFormat) -> Seq<char> {
    let refs = str_views(m.references@);
    if format == OutputFormat::Markdown {
        "# "@ + m.id@ + " — "@ + m.title@ + "\n\n- **Severity:** "@ + severity_name(m.default_severity)
            + "\n- **Confidence:** "@ + confidence_name(m.default_confidence)
            + "\n- **Category:** "@ + category_name(m.category) + "\n\n## Description\n\n"@
            + m.description@ + "\n\n## Remediation\n\n"@ + m.remediation@
            + "\n\n## References\n\n"@ + md_reference_list(refs) + "\n"@
    } else {
        m.id@ + " — "@ + m.title@ + "\n\n"@ + "Severity:   "@ + severity_name(m.default_severity)
            + "\n"@ + "Confidence: "@ + confidence_name(m.default_confidence) + "\n"@
            + "Category:   "@ + category_name(m.category) + "\n\n"@ + m.description@ + "\n\n"@
            + "Remediation:\n"@ + m.remediation@ + "\n\n"@ + "References:\n"@ + text_reference_lines(
            refs,
        )
    }
}

/// Renders a single rule (for `soroban-scan explain`) in Markdown or text.
pub fn render_rule_detail_text(meta: &RuleMetadata, format: OutputFormat) -> (r: String)
    ensures
        r@ == rule_detail_spec(*meta, format),
{
    let ghost refs = str_views(meta.references@);
    let mut out = String::new();
    if format == OutputFormat::Markdown {
        text::push_str(&mut out, "# ");
        text::push_str(&mut out, meta.id);
        text::push_str(&mut out, " — ");
        text::push_str(&mut out, meta.title);
        text::push_str(&mut out, "\n\n- **Severity:** ");
        text::push_str(&mut out, meta.default_severity.as_str());
        text::push_str(&mut out, "\n- **Confidence:** ");
        text::push_str(&mut out, meta.default_confidence.as_str());
        text::push_str(&mut out, "\n- **Category:** ");
        text::push_str(&mut out, meta.category.as_str());
        text::push_str(&mut out, "\n\n## Description\n\n");
        text::push_str(&mut out, meta.description);
        text::push_str(&mut out, "\n\n## Remediation\n\n");
        text::push_str(&mut out, meta.remediation);
        text::push_str(&mut out, "\n\n## References\n\n");
        let ghost head = out@;
        let mut i: usize = 0;
        while i < meta.references.len()
            invariant
                i <= meta.references@.len(),
                refs == str_views(meta.references@),
                out@ == head + md_reference_list(refs.take(i as int)),
            decreases meta.references@.len() - i,
        {
            assert(refs.take(i + 1).drop_last() =~= refs.take(i as int));
            if i > 0 {
                text::push_str(&mut out, "\n");
            }
            text::push_str(&mut out, "- <");
            text::push_str(&mut out, meta.references[i]);
            text::push_str(&mut out, ">");
            i = i + 1;
            assert(out@ =~= head + md_reference_list(refs.take(i as int)));
        }
        assert(refs.take(meta.references@.len() as int) =~= refs);
        text::push_str(&mut out, "\n");
    } else {
        text::push_str(&mut out, meta.id);
        text::push_str(&mut out, " — ");
        text::push_str(&mut out, meta.title);
        text::push_str(&mut out, "\n\n");
        text::push_str(&mut out, "Severity:   ");
        text::push_str(&mut out, meta.default_severity.as_str());
        text::push_str(&mut out, "\n");
        text::push_str(&mut out, "Confidence: ");
        text::push_str(&mut out, meta.default_confidence.as_str());
        text::push_str(&mut out, "\n");
        text::push_str(&mut out, "Category:   ");
        text::push_str(&mut out, meta.category.as_str());
        text::push_str(&mut out, "\n\n");
        text::push_str(&mut out, meta.description);
        text::push_str(&mut out, "\n\n");
        text::push_str(&mut out, "Remediation:\n");
        text::push_str(&mut out, meta.remediation);
        text::push_str(&mut out, "\n\n");
        text::push_str(&mut out, "References:\n");
        let ghost head = out@;
        let mut i: usize = 0;
        while i < meta.references.len()
            invariant
                i <= meta.references@.len(),
                refs == str_views(meta.references@),
                out@ == head + text_reference_lines(refs.take(i as int)),
            decreases meta.references@.len() - i,
        {
            assert(refs.take(i + 1).drop_last() =~= refs.take(i as int));
            text::push_str(&mut out, "  - ");
            text::push_str(&mut out, meta.references[i]);
            text::push_str(&mut out, "\n");
            i = i + 1;
            assert(out@ =~= head + text_reference_lines(refs.take(i as int)));
        }
        assert(refs.take(meta.references@.len() as int) =~= refs);
    }
    assert(out@ =~= rule_detail_spec(*meta, format));
    out
}

// ---------------------------------------------------------------------------
// SARIF content.
// ---------------------------------------------------------------------------
/// The SARIF level of a severity.
pub open spec fn sarif_level_spec(s: Severity) -> Seq<char> {
    match s {
        Severity::Critical | Severity::High => "error"@,
        Severity::Medium => "warning"@,
        Severity::Low | Severity::Info => "note"@,
    }
}

/// The SARIF level of a severity.
pub fn sarif_level(severity: Severity) -> (r: &'static str)
    ensures
        r@ == sarif_level_spec(severity),
{
    match severity {
        Severity::Critical | Severity::High => "error",
        Severity::Medium => "warning",
        Severity::Low | Severity::Info => "note",
    }
}

/// A rule descriptor of a SARIF report.
#[derive(Debug)]
pub struct SarifRule {
    /// Rule id.
    pub id: String,
    /// Rule name (its title); also the short description.
    pub name: String,
    /// Full description.
    pub full_description: String,
    /// Help URI: the first reference, or the tool's homepage.
    pub help_uri: String,
    /// Default level.
    pub level: String,
    /// Category name.
    pub category: String,
    /// Default confidence name.
    pub confidence: String,
    /// Default severity name.
    pub severity: String,
}

/// A result of a SARIF report.
#[derive(Debug)]
pub struct SarifResult {
    /// Rule id.
    pub rule_id: String,
    /// Level.
    pub level: String,
    /// Message: title, a dash, and evidence.
    pub message: String,
    /// Forward-slash file path.
    pub uri: String,
    /// Start line.
    pub start_line: usize,
    /// Start column, if known.
    pub start_column: Option<usize>,
    /// End line, if known.
    pub end_line: Option<usize>,
    /// Stable fingerprint.
    pub fingerprint: String,
    /// Severity name.
    pub severity: String,
    /// Confidence name.
    pub confidence: String,
    /// Category name.
    pub category: String,
    /// Remediation.
    pub remediation: String,
}

/// The SARIF descriptor of a rule holds its metadata.
pub open spec fn sarif_rule_of(r: SarifRule, m: RuleMetadata) -> bool {
    &&& r.id@ == m.id@
    &&& r.name@ == m.title@
    &&& r.full_description@ == m.description@
    &&& r.help_uri@ == (if m.references@.len() > 0 {
        m.references@[0]@
    } else {
        "https://github.com/AyinkxLab/soroban-security-scanner"@
    })
    &&& r.level@ == sarif_level_spec(m.default_severity)
    &&& r.category@ == category_name(m.category)
    &&& r.confidence@ == confidence_name(m.default_confidence)
    &&& r.severity@ == severity_name(m.default_severity)
}

/// The SARIF result of a finding.
pub open spec fn sarif_result_of(r: SarifResult, f: FindingView) -> bool {
    &&& r.rule_id@ == f.rule_id
    &&& r.level@ == sarif_level_spec(f.severity)
    &&& r.message@ == f.title + " — "@ + f.evidence
    &&& r.uri@ == slash_path(f.location.file)
    &&& r.start_line == f.location.line
    &&& r.start_column == f.location.column
    &&& r.end_line == f.location.end_line
    &&& r.fingerprint@ == f.fingerprint
    &&& r.severity@ == severity_name(f.severity)
    &&& r.confidence@ == confidence_name(f.confidence)
    &&& r.category@ == category_name(f.category)
    &&& r.remediation@ == f.remediation
}

/// The rule descriptors of a SARIF report, one per rule, in order.
pub fn sarif_rules(metas: &[RuleMetadata]) -> (r: Vec<SarifRule>)
    ensures
        r@.len() == metas@.len(),
        forall|i: int| 0 <= i < r@.len() ==> sarif_rule_of(#[trigger] r@[i], metas@[i]),
{
    proof {
        reveal_strlit("https://github.com/AyinkxLab/soroban-security-scanner");
    }
    let mut r: Vec<SarifRule> = Vec::new();
    let mut i: usize = 0;
    while i < metas.len()
        invariant
            i <= metas@.len(),
            r@.len() == i,
            forall|k: int| 0 <= k < i ==> sarif_rule_of(#[trigger] r@[k], metas@[k]),
        decreases metas@.len() - i,
    {
        let m = metas[i];
        let help = if m.references.len() > 0 {
            text::owned(m.references[0])
        } else {
            text::owned(TOOL_URL)
        };
        r.push(
            SarifRule {
                id: text::owned(m.id),
                name: text::owned(m.title),
                full_description: text::owned(m.description),
                help_uri: help,
                level: text::owned(sarif_level(m.default_severity)),
                category: text::owned(m.category.as_str()),
                confidence: text::owned(m.default_confidence.as_str()),
                severity: text::owned(m.default_severity.as_str()),
            },
        );
        i = i + 1;
    }
    r
}

/// The results of a SARIF report, one per finding, in order.
pub fn sarif_results(findings: &[Finding]) -> (r: Vec<SarifResult>)
    ensures
        r@.len() == findings@.len(),
        forall|i: int| 0 <= i < r@.len() ==> sarif_result_of(#[trigger] r@[i], findings@[i]@),
{
    let mut r: Vec<SarifResult> = Vec::new();
    let mut i: usize = 0;
    while i < findings.len()
        invariant
            i <= findings@.len(),
            r@.len() == i,
            forall|k: int| 0 <= k < i ==> sarif_result_of(#[trigger] r@[k], findings@[k]@),
        decreases findings@.len() - i,
    {
        let f = &findings[i];
        let mut message = f.title.clone();
        text::push_str(&mut message, " — ");
        text::push_str(&mut message, f.evidence.as_str());
        r.push(
            SarifResult {
                rule_id: f.rule_id.clone(),
                level: text::owned(sarif_level(f.severity)),
                message,
                uri: crate::discovery::to_slash(f.location.file.as_str()),
                start_line: f.location.line,
                start_column: f.location.column,
                end_line: f.location.end_line,
                fingerprint: f.fingerprint.clone(),
                severity: text::owned(f.severity.as_str()),
                confidence: text::owned(f.confidence.as_str()),
                category: text::owned(f.category.as_str()),
                remediation: f.remediation.clone(),
            },
        );
        i = i + 1;
    }
    r
}

} // verus!
