//! The scanner pipeline.
//!
//! The engine runs enabled rules over an immutable [`AnalysisContext`],
//! validates every finding against the scan root and known source files,
//! applies configuration overrides and filters, de-duplicates, and sorts the
//! result deterministically.
use vstd::prelude::*;

use crate::confidence::{confidence_level, Confidence};
use crate::config::{lookup_override, rule_enabled, RulesConfig, ScanConfig};
use crate::context::{relative_spec, AnalysisContext};
use crate::finding::{
    fingerprint_spec, identity_of, slash_path, sort_key_of, views, Finding, FindingView,
    LocationView,
};
use crate::model::{Diagnostic, DiagnosticLevel, DiagnosticView, Project};
use crate::order::{lex_le, lex_lt};
use crate::path;
use crate::project::LoadedProject;
use crate::registry::RuleRegistry;
use crate::rule::{context_view, ContextView, Rule, RuleMetadata};
use crate::rules::checks::finding_views;
use crate::severity::{severity_rank, Severity};
use crate::source::{diagnostic_views, source_views};
use crate::text::{self, has_prefix, replace_char, trimmed};

verus! {

/// Statistics about a scan.
#[derive(Debug, Clone, Copy, PartialEq, Eq)]
pub struct ScanStats {
    /// Number of rules executed.
    pub rules_run: usize,
    /// Number of rules skipped by configuration.
    pub rules_skipped: usize,
    /// Number of source files analyzed.
    pub files_analyzed: usize,
    /// Findings produced before validation/filtering.
    pub findings_raw: usize,
    /// Findings dropped because they referenced an unknown or unsafe file or
    /// had no evidence.
    pub findings_rejected: usize,
}

/// The full result of a scan.
#[derive(Debug)]
pub struct ScanOutcome {
    /// Project metadata.
    pub project: Project,
    /// Final findings, sorted and de-duplicated.
    pub findings: Vec<Finding>,
    /// Diagnostics (project + pipeline).
    pub diagnostics: Vec<Diagnostic>,
    /// Scan statistics.
    pub stats: ScanStats,
}

// ---------------------------------------------------------------------------
// Paths of findings.
// ---------------------------------------------------------------------------
/// A relative path in forward-slash form without a leading `./`.
pub open spec fn normalize_rel_spec(p: Seq<char>) -> Seq<char> {
    let s = replace_char(p, '\\', '/');
    if has_prefix(s, "./"@) {
        s.skip(2)
    } else {
        s
    }
}

/// Normalizes a relative path to forward slashes without a leading `./`.
pub fn normalize_rel(p: &str) -> (r: String)
    ensures
        r@ == normalize_rel_spec(p@),
{
    let s = text::replace_char_exec(p, '\\', '/');
    if text::starts_with(s.as_str(), "./") {
        proof {
            reveal_strlit("./");
        }
        let cs = text::chars_of(s.as_str());
        let mut out: Vec<char> = Vec::new();
        let mut i: usize = 2;
        while i < cs.len()
            invariant
                2 <= i <= cs.len(),
                cs@ == s@,
                out@ == s@.subrange(2, i as int),
            decreases cs.len() - i,
        {
            out.push(cs[i]);
            i = i + 1;
        }
        assert(out@ =~= s@.skip(2));
        text::string_of(&out)
    } else {
        s
    }
}

/// A safe relative path: not absolute, no `..` or root component, not empty.
pub open spec fn safe_relative(p: Seq<char>) -> bool {
    &&& !path::is_absolute(p)
    &&& p.len() > 0
    &&& forall|i: int| 0 <= i < path::components(p).len() ==> #[trigger] path::components(p)[i] != ".."@
        && path::components(p)[i] != "/"@
}

/// Returns true if `p` is a safe, relative path with no traversal.
pub fn is_safe_relative(p: &str) -> (r: bool)
    ensures
        r == safe_relative(p@),
{
    let cs = text::chars_of(p);
    if cs.len() == 0 || cs[0] == '/' {
        return false;
    }
    let comps = path::components_exec(p);
    let mut i: usize = 0;
    while i < comps.len()
        invariant
            i <= comps@.len(),
            comps@.len() == path::components(p@).len(),
            forall|k: int| 0 <= k < comps@.len() ==> #[trigger] comps@[k]@ == path::components(p@)[k],
            forall|k: int| 0 <= k < i ==> #[trigger] path::components(p@)[k] != ".."@ && path::components(p@)[k] != "/"@,
        decreases comps@.len() - i,
    {
        let c = &comps[i];
        let dotdot = c.len() == 2 && c[0] == '.' && c[1] == '.';
        let root = c.len() == 1 && c[0] == '/';
        proof {
            reveal_strlit("..");
            reveal_strlit("/");
            assert(c@.len() == 2 ==> (dotdot <==> c@ =~= ".."@));
            assert(c@.len() == 1 ==> (root <==> c@ =~= "/"@));
            assert(c@.len() != 2 ==> c@ != ".."@);
            assert(c@.len() != 1 ==> c@ != "/"@);
        }
        if dotdot || root {
            return false;
        }
        i = i + 1;
    }
    true
}

// ---------------------------------------------------------------------------
// Validation and filtering of raw findings.
// ---------------------------------------------------------------------------
/// A raw finding with configuration overrides applied and its file made
/// relative to the scan root (its fingerprint is refreshed later).
pub open spec fn adjusted(f: FindingView, config: ScanConfig, root: Seq<char>) -> FindingView {
    FindingView {
        severity: match lookup_override(config.rules.severity_overrides@, f.rule_id) {
            Some(s) => s,
            None => f.severity,
        },
        confidence: match lookup_override(config.rules.confidence_overrides@, f.rule_id) {
            Some(c) => c,
            None => f.confidence,
        },
        location: LocationView { file: relative_spec(root, f.location.file), ..f.location },
        ..f
    }
}

/// The fate of one raw finding.
pub enum Verdict {
    /// Its location is not a safe relative path.
    Unsafe,
    /// Its file is not one of the analyzed files.
    Unknown,
    /// It has no evidence.
    NoEvidence,
    /// It passes validation; kept iff it meets both thresholds.
    Valid,
}

/// The verdict on an adjusted finding.
pub open spec fn verdict(a: FindingView, known: Seq<Seq<char>>) -> Verdict {
    if !safe_relative(a.location.file) {
        Verdict::Unsafe
    } else if !known.contains(normalize_rel_spec(a.location.file)) {
        Verdict::Unknown
    } else if trimmed(a.evidence).len() == 0 {
        Verdict::NoEvidence
    } else {
        Verdict::Valid
    }
}

/// The diagnostic raised for a rejected finding.
pub open spec fn rejection_message(a: FindingView, v: Verdict) -> Seq<char> {
    match v {
        Verdict::Unsafe => "rule "@ + a.rule_id + " produced an unsafe location: "@ + a.location.file,
        Verdict::Unknown => "rule "@ + a.rule_id + " reported a file outside the analyzed set: "@
            + normalize_rel_spec(a.location.file),
        _ => "rule "@ + a.rule_id + " produced a finding without evidence"@,
    }
}

/// An error diagnostic with no path.
pub open spec fn error_diag(message: Seq<char>) -> DiagnosticView {
    DiagnosticView { level: DiagnosticLevel::Error, message, path: None, line: None }
}

/// A validated finding with its fingerprint refreshed.
pub open spec fn refreshed(a: FindingView) -> FindingView {
    FindingView { fingerprint: fingerprint_spec(a.rule_id, a.location.file, a.evidence), ..a }
}

/// A finding meets the configured minimum severity and confidence.
pub open spec fn meets_thresholds(f: FindingView, config: ScanConfig) -> bool {
    severity_rank(f.severity) >= severity_rank(config.min_severity) && confidence_level(
        f.confidence,
    ) >= confidence_level(config.min_confidence)
}

/// Validation of the first `n` raw findings: the kept findings, the
/// diagnostics raised, and the number rejected.
pub open spec fn screen(
    raw: Seq<FindingView>,
    config: ScanConfig,
    root: Seq<char>,
    known: Seq<Seq<char>>,
) -> (Seq<FindingView>, Seq<DiagnosticView>, nat)
    decreases raw.len(),
{
    if raw.len() == 0 {
        (Seq::empty(), Seq::empty(), 0)
    } else {
        let (kept, diags, rejected) = screen(raw.drop_last(), config, root, known);
        let a = adjusted(raw.last(), config, root);
        let v = verdict(a, known);
        match v {
            Verdict::Valid => {
                let f = refreshed(a);
                if meets_thresholds(f, config) {
                    (kept.push(f), diags, rejected)
                } else {
                    (kept, diags, rejected)
                }
            },
            _ => (kept, diags.push(error_diag(rejection_message(a, v))), rejected + 1),
        }
    }
}

/// Sort-key order: file, line, column, rule id, fingerprint.
pub open spec fn key_le(
    a: (Seq<char>, usize, usize, Seq<char>, Seq<char>),
    b: (Seq<char>, usize, usize, Seq<char>, Seq<char>),
) -> bool {
    ||| lex_lt(a.0, b.0)
    ||| (a.0 == b.0 && a.1 < b.1)
    ||| (a.0 == b.0 && a.1 == b.1 && a.2 < b.2)
    ||| (a.0 == b.0 && a.1 == b.1 && a.2 == b.2 && lex_lt(a.3, b.3))
    ||| (a.0 == b.0 && a.1 == b.1 && a.2 == b.2 && a.3 == b.3 && lex_le(a.4, b.4))
}

/// Inserts `x` after every finding whose key is not after its key.
pub open spec fn insert_finding(s: Seq<FindingView>, x: FindingView) -> Seq<FindingView>
    decreases s.len(),
{
    if s.len() == 0 {
        seq![x]
    } else if key_le(sort_key_of(s.last()), sort_key_of(x)) {
        s.push(x)
    } else {
        insert_finding(s.drop_last(), x).push(s.last())
    }
}

/// Findings stably sorted by their sort key.
pub open spec fn sort_findings(s: Seq<FindingView>) -> Seq<FindingView>
    decreases s.len(),
{
    if s.len() == 0 {
        Seq::empty()
    } else {
        insert_finding(sort_findings(s.drop_last()), s.last())
    }
}

/// The first finding of each identity, in order.
pub open spec fn dedup_findings(s: Seq<FindingView>) -> Seq<FindingView>
    decreases s.len(),
{
    if s.len() == 0 {
        Seq::empty()
    } else {
        let r = dedup_findings(s.drop_last());
        if r.map_values(|f: FindingView| identity_of(f)).contains(identity_of(s.last())) {
            r
        } else {
            r.push(s.last())
        }
    }
}

/// The final findings of a list of raw findings.
pub open spec fn final_findings(
    raw: Seq<FindingView>,
    config: ScanConfig,
    root: Seq<char>,
    known: Seq<Seq<char>>,
) -> Seq<FindingView> {
    dedup_findings(sort_findings(screen(raw, config, root, known).0))
}

fn key_le_exec(a: &(String, usize, usize, String, String), b: &(String, usize, usize, String, String)) -> (r: bool)
    ensures
        r == key_le((a.0@, a.1, a.2, a.3@, a.4@), (b.0@, b.1, b.2, b.3@, b.4@)),
{
    let c0 = crate::order::compare_strs(a.0.as_str(), b.0.as_str());
    if c0 != 0 {
        return c0 < 0;
    }
    if a.1 != b.1 {
        return a.1 < b.1;
    }
    if a.2 != b.2 {
        return a.2 < b.2;
    }
    let c3 = crate::order::compare_strs(a.3.as_str(), b.3.as_str());
    if c3 != 0 {
        return c3 < 0;
    }
    crate::order::compare_strs(a.4.as_str(), b.4.as_str()) <= 0
}

proof fn lemma_insert_finding_at(s: Seq<FindingView>, x: FindingView, j: int)
    requires
        0 <= j <= s.len(),
        forall|k: int| j <= k < s.len() ==> !key_le(sort_key_of(#[trigger] s[k]), sort_key_of(x)),
        j > 0 ==> key_le(sort_key_of(s[j - 1]), sort_key_of(x)),
    ensures
        insert_finding(s, x) == s.insert(j, x),
    decreases s.len(),
{
    if s.len() == 0 {
        assert(s.insert(j, x) =~= seq![x]);
    } else if j == s.len() {
        assert(s.insert(j, x) =~= s.push(x));
    } else {
        assert(!key_le(sort_key_of(s[s.len() - 1]), sort_key_of(x)));
        lemma_insert_finding_at(s.drop_last(), x, j);
        assert(s.drop_last().insert(j, x).push(s.last()) =~= s.insert(j, x));
    }
}

/// The view of a sort key.
pub open spec fn key_view(k: (String, usize, usize, String, String)) -> (Seq<char>, usize, usize, Seq<char>, Seq<char>) {
    (k.0@, k.1, k.2, k.3@, k.4@)
}

/// Stably sorts findings by their sort key.
fn sort_by_key(v: &Vec<Finding>) -> (r: Vec<Finding>)
    ensures
        finding_views(r@) == sort_findings(finding_views(v@)),
{
    let ghost fv = finding_views(v@);
    let mut out: Vec<Finding> = Vec::new();
    let mut keys: Vec<(String, usize, usize, String, String)> = Vec::new();
    let mut i: usize = 0;
    while i < v.len()
        invariant
            i <= v@.len(),
            fv == finding_views(v@),
            finding_views(out@) == sort_findings(fv.take(i as int)),
            keys@.len() == out@.len(),
            forall|k: int| 0 <= k < keys@.len() ==> key_view(#[trigger] keys@[k]) == sort_key_of(out@[k]@),
        decreases v@.len() - i,
    {
        let x = v[i].copy();
        assert(x@ == fv[i as int]);
        assert(fv.take(i + 1).drop_last() =~= fv.take(i as int));
        let xk = x.sort_key();
        let ghost ov = finding_views(out@);
        let mut pos: usize = out.len();
        while pos > 0 && !key_le_exec(&keys[pos - 1], &xk)
            invariant
                pos <= out@.len(),
                keys@.len() == out@.len(),
                ov == finding_views(out@),
                forall|k: int| 0 <= k < keys@.len() ==> key_view(#[trigger] keys@[k]) == sort_key_of(out@[k]@),
                key_view(xk) == sort_key_of(x@),
                forall|q: int| pos <= q < ov.len() ==> !key_le(sort_key_of(#[trigger] ov[q]), sort_key_of(x@)),
            decreases pos,
        {
            assert(ov[pos - 1] == out@[pos - 1]@);
            assert(key_view(keys@[pos - 1]) == sort_key_of(out@[pos - 1]@));
            pos = pos - 1;
        }
        proof {
            if pos > 0 {
                assert(ov[pos - 1] == out@[pos - 1]@);
                assert(key_view(keys@[pos - 1]) == sort_key_of(out@[pos - 1]@));
            }
            lemma_insert_finding_at(ov, x@, pos as int);
        }
        let ghost xv = x@;
        let ghost ko = keys@;
        let ghost oo = out@;
        out.insert(pos, x);
        keys.insert(pos, xk);
        assert(finding_views(out@) =~= ov.insert(pos as int, xv));
        assert forall|k: int| 0 <= k < keys@.len() implies key_view(#[trigger] keys@[k]) == sort_key_of(out@[k]@) by {
            if k < pos {
                assert(keys@[k] == ko[k] && out@[k] == oo[k]);
            } else if k > pos {
                assert(keys@[k] == ko[k - 1] && out@[k] == oo[k - 1]);
            }
        }
        i = i + 1;
    }
    assert(fv.take(v@.len() as int) =~= fv);
    out
}

/// The identities of a list of findings.
pub open spec fn identities(s: Seq<FindingView>) -> Seq<(Seq<char>, Seq<char>, usize, usize, Seq<char>)> {
    s.map_values(|f: FindingView| identity_of(f))
}

/// The view of an identity.
pub open spec fn identity_view(k: (String, String, usize, usize, String)) -> (Seq<char>, Seq<char>, usize, usize, Seq<char>) {
    (k.0@, k.1@, k.2, k.3, k.4@)
}

fn same_identity(a: &(String, String, usize, usize, String), b: &(String, String, usize, usize, String)) -> (r: bool)
    ensures
        r == (identity_view(*a) == identity_view(*b)),
{
    text::str_eq(a.0.as_str(), b.0.as_str()) && text::str_eq(a.1.as_str(), b.1.as_str()) && a.2 == b.2
        && a.3 == b.3 && text::str_eq(a.4.as_str(), b.4.as_str())
}

/// Keeps the first finding of each identity.
fn dedup(v: Vec<Finding>) -> (r: Vec<Finding>)
    ensures
        finding_views(r@) == dedup_findings(finding_views(v@)),
{
    let ghost fv = finding_views(v@);
    let mut out: Vec<Finding> = Vec::new();
    let mut seen: Vec<(String, String, usize, usize, String)> = Vec::new();
    let mut i: usize = 0;
    while i < v.len()
        invariant
            i <= v@.len(),
            fv == finding_views(v@),
            finding_views(out@) == dedup_findings(fv.take(i as int)),
            seen@.map_values(|k: (String, String, usize, usize, String)| identity_view(k)) == identities(finding_views(out@)),
        decreases v@.len() - i,
    {
        assert(fv.take(i + 1).drop_last() =~= fv.take(i as int));
        let id = v[i].identity();
        assert(identity_view(id) == identity_of(fv[i as int]));
        let ghost sv = seen@.map_values(|k: (String, String, usize, usize, String)| identity_view(k));
        let mut found = false;
        let mut j: usize = 0;
        while j < seen.len()
            invariant
                j <= seen@.len(),
                sv == seen@.map_values(|k: (String, String, usize, usize, String)| identity_view(k)),
                found ==> sv.contains(identity_view(id)),
                !found ==> forall|q: int| 0 <= q < j ==> #[trigger] sv[q] != identity_view(id),
            decreases seen@.len() - j,
        {
            if same_identity(&seen[j], &id) {
                assert(sv[j as int] == identity_view(id));
                found = true;
            }
            j = j + 1;
        }
        if !found {
            let ghost ov = finding_views(out@);
            let ghost idv = identity_view(id);
            let f = v[i].copy();
            out.push(f);
            seen.push(id);
            assert(seen@.map_values(|k: (String, String, usize, usize, String)| identity_view(k)) =~= sv.push(idv));
            assert(identities(ov.push(fv[i as int])) =~= identities(ov).push(identity_of(fv[i as int])));
            assert(finding_views(out@) =~= ov.push(fv[i as int]));
            assert(seen@.map_values(|k: (String, String, usize, usize, String)| identity_view(k))
                =~= identities(finding_views(out@)));
        }
        i = i + 1;
    }
    assert(fv.take(v@.len() as int) =~= fv);
    out
}

/// The normalized relative paths of the analyzed sources.
pub open spec fn known_files(root: Seq<char>, sources: Seq<crate::source::SourceView>) -> Seq<Seq<char>> {
    sources.map_values(|s: crate::source::SourceView| normalize_rel_spec(relative_spec(root, s.path)))
}

fn error_diagnostic(message: String) -> (r: Diagnostic)
    ensures
        r@ == error_diag(message@),
{
    Diagnostic::error(message, None)
}

/// Validates raw findings against the scan root and the analyzed files,
/// applies overrides and thresholds, then sorts and de-duplicates.
///
/// Returns the final findings, the diagnostics raised for rejected findings
/// and the number rejected.
pub fn finalize(raw: &Vec<Finding>, root: &str, known: &Vec<String>, config: &ScanConfig) -> (r: (
    Vec<Finding>,
    Vec<Diagnostic>,
    usize,
))
    ensures
        finding_views(r.0@) == final_findings(finding_views(raw@), *config, root@, views(known@)),
        diagnostic_views(r.1@) == screen(finding_views(raw@), *config, root@, views(known@)).1,
        r.2 == screen(finding_views(raw@), *config, root@, views(known@)).2,
{
    let ghost rv = finding_views(raw@);
    let ghost kv = views(known@);
    let mut kept: Vec<Finding> = Vec::new();
    let mut diags: Vec<Diagnostic> = Vec::new();
    let mut rejected: usize = 0;
    let mut i: usize = 0;
    while i < raw.len()
        invariant
            i <= raw@.len(),
            rv == finding_views(raw@),
            kv == views(known@),
            rejected <= i,
            finding_views(kept@) == screen(rv.take(i as int), *config, root@, kv).0,
            diagnostic_views(diags@) == screen(rv.take(i as int), *config, root@, kv).1,
            rejected == screen(rv.take(i as int), *config, root@, kv).2,
        decreases raw@.len() - i,
    {
        assert(rv.take(i + 1).drop_last() =~= rv.take(i as int));
        assert(rv.take(i + 1).last() == rv[i as int]);
        let ghost kept0 = finding_views(kept@);
        let ghost diags0 = diagnostic_views(diags@);
        let mut f = raw[i].copy();
        match config.rules.severity_override(f.rule_id.as_str()) {
            Some(sev) => {
                f.severity = sev;
            },
            None => {},
        }
        match config.rules.confidence_override(f.rule_id.as_str()) {
            Some(c) => {
                f.confidence = c;
            },
            None => {},
        }
        f.location.file = path::relative_to(f.location.file.as_str(), root);
        let ghost a = adjusted(rv[i as int], *config, root@);
        assert(f@ == a);
        if !is_safe_relative(f.location.file.as_str()) {
            let mut m = text::concat2("rule ", f.rule_id.as_str());
            text::push_str(&mut m, " produced an unsafe location: ");
            text::push_str(&mut m, f.location.file.as_str());
            let d = error_diagnostic(m);
            assert(d@ == error_diag(rejection_message(a, Verdict::Unsafe)));
            diags.push(d);
            assert(diagnostic_views(diags@) =~= diags0.push(d@));
            rejected = rejected + 1;
            i = i + 1;
            continue;
        }
        let rel = normalize_rel(f.location.file.as_str());
        if !crate::order::list_contains(known, rel.as_str()) {
            let mut m = text::concat2("rule ", f.rule_id.as_str());
            text::push_str(&mut m, " reported a file outside the analyzed set: ");
            text::push_str(&mut m, rel.as_str());
            let d = error_diagnostic(m);
            assert(d@ == error_diag(rejection_message(a, Verdict::Unknown)));
            diags.push(d);
            assert(diagnostic_views(diags@) =~= diags0.push(d@));
            rejected = rejected + 1;
            i = i + 1;
            continue;
        }
        if text::trim(f.evidence.as_str()).as_str().is_empty() {
            let mut m = text::concat2("rule ", f.rule_id.as_str());
            text::push_str(&mut m, " produced a finding without evidence");
            let d = error_diagnostic(m);
            assert(d@ == error_diag(rejection_message(a, Verdict::NoEvidence)));
            diags.push(d);
            assert(diagnostic_views(diags@) =~= diags0.push(d@));
            rejected = rejected + 1;
            i = i + 1;
            continue;
        }
        f.refresh_fingerprint();
        assert(f@ == refreshed(a));
        if f.severity.meets(config.min_severity) && f.confidence.at_least(config.min_confidence) {
            kept.push(f);
            assert(finding_views(kept@) =~= kept0.push(refreshed(a)));
        }
        i = i + 1;
    }
    assert(rv.take(raw@.len() as int) =~= rv);
    let sorted = sort_by_key(&kept);
    let out = dedup(sorted);
    (out, diags, rejected)
}


/// Whether every rule states exactly what it reports.
pub open spec fn all_exact<R: Rule>(rules: Seq<R>) -> bool {
    forall|i: int| 0 <= i < rules.len() ==> #[trigger] rules[i].reports_exactly()
}

/// The findings the first `n` rules report on a context, skipping the rules
/// that do not run.
pub open spec fn rules_findings<R: Rule>(
    rules: Seq<R>,
    metas: Seq<RuleMetadata>,
    cfg: RulesConfig,
    c: ContextView,
    n: nat,
) -> Seq<FindingView>
    decreases n,
{
    if n == 0 {
        Seq::empty()
    } else {
        rules_findings(rules, metas, cfg, c, (n - 1) as nat) + if runs(rules[n - 1], metas[n - 1], cfg) {
            rules[n - 1].analysis(c)
        } else {
            Seq::empty()
        }
    }
}

/// Whether a rule runs: it is enabled by default and the configuration
/// enables its id.
pub open spec fn runs<R: Rule>(rule: R, meta: RuleMetadata, cfg: RulesConfig) -> bool {
    rule.default_enabled() && rule_enabled(cfg, meta.id@)
}

/// The number of rules among the first `n` that run.
pub open spec fn count_run<R: Rule>(rules: Seq<R>, metas: Seq<RuleMetadata>, cfg: RulesConfig, n: nat) -> nat
    decreases n,
{
    if n == 0 {
        0
    } else {
        count_run(rules, metas, cfg, (n - 1) as nat) + if runs(rules[n - 1], metas[n - 1], cfg) {
            1nat
        } else {
            0nat
        }
    }
}

/// What the rules observe of a loaded project.
pub open spec fn loaded_context(loaded: LoadedProject) -> ContextView {
    ContextView { kind: loaded.project.kind, root: loaded.project.root@, sources: source_views(loaded.sources@) }
}

/// Runs the scanner over a loaded project.
///
/// Every enabled rule is run (a rule is skipped when it is not enabled by
/// default or the configuration disables its id); the findings they produce
/// are then passed through [`finalize`].
pub fn scan<R: Rule>(loaded: &LoadedProject, registry: &RuleRegistry<R>, config: &ScanConfig) -> (r: ScanOutcome)
    requires
        registry.wf(),
    ensures
        exists|raw: Seq<FindingView>|
            #![trigger screen(raw, *config, loaded.project.root@, known_files(loaded.project.root@, source_views(loaded.sources@)))]
            {
                &&& finding_views(r.findings@) == final_findings(
                    raw,
                    *config,
                    loaded.project.root@,
                    known_files(loaded.project.root@, source_views(loaded.sources@)),
                )
                &&& diagnostic_views(r.diagnostics@) == diagnostic_views(loaded.project.diagnostics@)
                    + screen(
                    raw,
                    *config,
                    loaded.project.root@,
                    known_files(loaded.project.root@, source_views(loaded.sources@)),
                ).1
                &&& r.stats.findings_rejected == screen(
                    raw,
                    *config,
                    loaded.project.root@,
                    known_files(loaded.project.root@, source_views(loaded.sources@)),
                ).2
                &&& r.stats.findings_raw == raw.len()
                &&& all_exact(registry.rules_spec()) ==> raw == rules_findings(
                    registry.rules_spec(),
                    registry.metadata_spec(),
                    config.rules,
                    loaded_context(*loaded),
                    registry.metadata_spec().len(),
                )
            },
        all_exact(registry.rules_spec()) ==> finding_views(r.findings@) == final_findings(
            rules_findings(
                registry.rules_spec(),
                registry.metadata_spec(),
                config.rules,
                loaded_context(*loaded),
                registry.metadata_spec().len(),
            ),
            *config,
            loaded.project.root@,
            known_files(loaded.project.root@, source_views(loaded.sources@)),
        ),
        r.stats.rules_run + r.stats.rules_skipped == registry.metadata_spec().len(),
        r.stats.rules_run == count_run(
            registry.rules_spec(),
            registry.metadata_spec(),
            config.rules,
            registry.metadata_spec().len(),
        ),
        forall|i: int|
            0 <= i < registry.metadata_spec().len() && !rule_enabled(config.rules, #[trigger] registry.metadata_spec()[i].id@)
                ==> r.stats.rules_skipped > 0,
        r.stats.files_analyzed == loaded.sources@.len(),
        crate::project::project_view(r.project) == crate::project::project_view(loaded.project),
{
    let ctx = AnalysisContext::new(&loaded.project, loaded.sources.as_slice());
    let ghost sv = source_views(loaded.sources@);
    let mut known: Vec<String> = Vec::new();
    let mut i: usize = 0;
    while i < loaded.sources.len()
        invariant
            i <= loaded.sources@.len(),
            sv == source_views(loaded.sources@),
            ctx.root@ == loaded.project.root@,
            views(known@) == known_files(loaded.project.root@, sv.take(i as int)),
        decreases loaded.sources@.len() - i,
    {
        let rel = ctx.relative_path(loaded.sources[i].path.as_str());
        let n = normalize_rel(rel.as_str());
        let ghost kb = views(known@);
        known.push(n);
        assert(views(known@) =~= kb.push(n@));
        assert(known_files(loaded.project.root@, sv.take(i + 1)) =~= known_files(loaded.project.root@, sv.take(i as int)).push(n@));
        i = i + 1;
    }
    assert(sv.take(loaded.sources@.len() as int) =~= sv);
    let mut findings: Vec<Finding> = Vec::new();
    let rules = registry.rules();
    let ghost cv = loaded_context(*loaded);
    let ghost rs = registry.rules_spec();
    let ghost ms = registry.metadata_spec();
    assert(context_view(&ctx) == cv) by {
        assert(source_views(ctx.sources@) =~= source_views(loaded.sources@));
    }
    let mut run: usize = 0;
    let mut skipped: usize = 0;
    let mut k: usize = 0;
    while k < rules.len()
        invariant
            k <= rules@.len(),
            rules@.map_values(|x: crate::registry::Registered<R>| x.meta) == registry.metadata_spec(),
            rules@.map_values(|x: crate::registry::Registered<R>| x.rule) == rs,
            ms == registry.metadata_spec(),
            rs.len() == ms.len(),
            context_view(&ctx) == cv,
            run + skipped == k,
            run == count_run(rs, ms, config.rules, k as nat),
            forall|q: int| 0 <= q < k && !rule_enabled(config.rules, #[trigger] registry.metadata_spec()[q].id@) ==> skipped > 0,
            all_exact(rs) ==> finding_views(findings@) == rules_findings(rs, ms, config.rules, cv, k as nat),
        decreases rules@.len() - k,
    {
        let entry = &rules[k];
        assert(registry.metadata_spec()[k as int] == entry.meta);
        assert(rs[k as int] == entry.rule);
        proof {
            if all_exact(rs) {
                assert(rs[k as int].reports_exactly());
            }
        }
        if !entry.rule.enabled_by_default() || !config.rules.is_enabled(entry.meta.id) {
            skipped = skipped + 1;
        } else {
            run = run + 1;
            entry.rule.analyze(&ctx, &mut findings);
        }
        k = k + 1;
    }
    let raw_count = findings.len();
    let (final_list, rejections, rejected) = finalize(&findings, loaded.project.root.as_str(), &known, config);
    let mut diagnostics = crate::project::copy_diagnostics(&loaded.project.diagnostics);
    let ghost d0 = diagnostic_views(diagnostics@);
    let mut j: usize = 0;
    while j < rejections.len()
        invariant
            j <= rejections@.len(),
            diagnostic_views(diagnostics@) == d0 + diagnostic_views(rejections@).take(j as int),
        decreases rejections@.len() - j,
    {
        let d = &rejections[j];
        let c = Diagnostic {
            level: d.level,
            message: d.message.clone(),
            path: match &d.path {
                Some(p) => Some(p.clone()),
                None => None,
            },
            line: d.line,
        };
        let ghost b = diagnostic_views(diagnostics@);
        diagnostics.push(c);
        assert(diagnostic_views(diagnostics@) =~= b.push(c@));
        j = j + 1;
        assert(diagnostic_views(rejections@).take(j as int) =~= diagnostic_views(rejections@).take(j - 1).push(rejections@[j - 1]@));
    }
    assert(diagnostic_views(rejections@).take(rejections@.len() as int) =~= diagnostic_views(rejections@));
    let stats = ScanStats {
        rules_run: run,
        rules_skipped: skipped,
        files_analyzed: loaded.sources.len(),
        findings_raw: raw_count,
        findings_rejected: rejected,
    };
    ScanOutcome { project: crate::project::copy_project(&loaded.project), findings: final_list, diagnostics, stats }
}

/// Builds a synthetic single-file project from an in-memory source string.
///
/// The project is rooted at `.`, is taken to depend on the Soroban SDK, and is
/// confirmed as a contract when the source defines one.
pub fn synthetic_loaded(src: &str, file_name: &str) -> (r: LoadedProject)
    ensures
        r.sources@.len() == 1,
        r.sources@[0]@ == crate::source::parse_source_spec(file_name@, "."@, src@),
        r.project.root@ == "."@,
        r.project.manifests@.len() == 0,
        r.project.source_files == 1,
        r.project.soroban.has_sdk_dependency,
        r.project.soroban.contract_macros_found == (r.sources@[0]@.contract_definitions.len() > 0),
        views(r.project.soroban.sdk_versions@) == Seq::<Seq<char>>::empty(),
        crate::order::strictly_sorted_texts(views(r.project.soroban.evidence@)),
        forall|e: Seq<char>|
            #![trigger views(r.project.soroban.evidence@).contains(e)]
            views(r.project.soroban.evidence@).contains(e) <==> crate::source::definition_evidence_in(
                source_views(r.sources@),
                e,
            ),
        r.project.kind == crate::soroban::classify_spec(r.project.soroban),
        diagnostic_views(r.project.diagnostics@) == match r.sources@[0]@.parse_error {
            Some(e) => seq![crate::source::file_warning("failed to parse source: "@ + e, file_name@)],
            None => Seq::empty(),
        },
{
    let parsed = crate::source::parse_source(file_name, ".", src);
    let mut diagnostics: Vec<Diagnostic> = Vec::new();
    match &parsed.parse_error {
        Some(e) => {
            let d = Diagnostic::warning(text::concat2("failed to parse source: ", e.as_str()), Some(text::owned(file_name)));
            diagnostics.push(d);
            assert(diagnostic_views(diagnostics@) =~= seq![d@]);
        },
        None => {
            assert(diagnostic_views(diagnostics@) =~= Seq::<DiagnosticView>::empty());
        },
    }
    let mut info = crate::model::SorobanInfo::default();
    info.has_sdk_dependency = true;
    assert(views(info.evidence@) =~= Seq::<Seq<char>>::empty());
    let sources = vec![parsed];
    proof {
        let sv = source_views(sources@);
        assert(sv[0] == sources@[0]@);
        if crate::source::any_definition_in(sv) {
            let w = choose|w: int| 0 <= w < sv.len() && sv[w].contract_definitions.len() > 0;
            assert(w == 0);
        }
    }
    crate::source::note_sources(&mut info, &sources);
    let kind = crate::soroban::classify(&info);
    let project = Project {
        root: text::owned("."),
        kind,
        manifests: Vec::new(),
        soroban: info,
        source_files: 1,
        diagnostics,
    };
    LoadedProject { project, sources }
}

/// Scans an in-memory source string as a synthetic single-file project.
pub fn scan_source_str<R: Rule>(src: &str, file_name: &str, config: &ScanConfig, registry: &RuleRegistry<R>) -> (r: ScanOutcome)
    requires
        registry.wf(),
    ensures
        r.project.root@ == "."@,
        r.project.source_files == 1,
        r.project.manifests@.len() == 0,
        r.project.soroban.has_sdk_dependency,
        r.project.soroban.contract_macros_found == (crate::source::parse_source_spec(file_name@, "."@, src@).contract_definitions.len() > 0),
        views(r.project.soroban.sdk_versions@) == Seq::<Seq<char>>::empty(),
        crate::order::strictly_sorted_texts(views(r.project.soroban.evidence@)),
        forall|e: Seq<char>|
            #![trigger views(r.project.soroban.evidence@).contains(e)]
            views(r.project.soroban.evidence@).contains(e) <==> crate::source::definition_evidence_in(
                seq![crate::source::parse_source_spec(file_name@, "."@, src@)],
                e,
            ),
        r.project.kind == crate::soroban::classify_spec(r.project.soroban),
        r.stats.files_analyzed == 1,
        r.stats.rules_run + r.stats.rules_skipped == registry.metadata_spec().len(),
        exists|raw: Seq<FindingView>|
            {
                &&& finding_views(r.findings@) == #[trigger] final_findings(
                    raw,
                    *config,
                    "."@,
                    synthetic_known(file_name@, src@),
                )
                &&& diagnostic_views(r.diagnostics@) == synthetic_diagnostics(file_name@, src@) + screen(
                    raw,
                    *config,
                    "."@,
                    synthetic_known(file_name@, src@),
                ).1
                &&& r.stats.findings_rejected == screen(raw, *config, "."@, synthetic_known(file_name@, src@)).2
                &&& r.stats.findings_raw == raw.len()
                &&& all_exact(registry.rules_spec()) ==> raw == rules_findings(
                    registry.rules_spec(),
                    registry.metadata_spec(),
                    config.rules,
                    ContextView {
                        kind: r.project.kind,
                        root: "."@,
                        sources: seq![crate::source::parse_source_spec(file_name@, "."@, src@)],
                    },
                    registry.metadata_spec().len(),
                )
            },
{
    let loaded = synthetic_loaded(src, file_name);
    proof {
        assert(source_views(loaded.sources@) =~= seq![crate::source::parse_source_spec(file_name@, "."@, src@)]);
        assert(diagnostic_views(loaded.project.diagnostics@) == synthetic_diagnostics(file_name@, src@));
    }
    let r = scan(&loaded, registry, config);
    proof {
        let known = known_files(loaded.project.root@, source_views(loaded.sources@));
        assert(known == synthetic_known(file_name@, src@));
        let raw = choose|raw: Seq<FindingView>|
            {
                &&& finding_views(r.findings@) == final_findings(raw, *config, loaded.project.root@, known)
                &&& diagnostic_views(r.diagnostics@) == diagnostic_views(loaded.project.diagnostics@) + #[trigger] screen(
                    raw,
                    *config,
                    loaded.project.root@,
                    known,
                ).1
                &&& r.stats.findings_rejected == screen(raw, *config, loaded.project.root@, known).2
                &&& r.stats.findings_raw == raw.len()
                &&& all_exact(registry.rules_spec()) ==> raw == rules_findings(
                    registry.rules_spec(),
                    registry.metadata_spec(),
                    config.rules,
                    loaded_context(loaded),
                    registry.metadata_spec().len(),
                )
            };
        assert(loaded_context(loaded) == ContextView {
            kind: r.project.kind,
            root: "."@,
            sources: seq![crate::source::parse_source_spec(file_name@, "."@, src@)],
        });
        assert(finding_views(r.findings@) == final_findings(raw, *config, "."@, synthetic_known(file_name@, src@)));
        assert(crate::project::manifest_views(r.project.manifests@).len() == 0);
        assert(views(r.project.soroban.sdk_versions@) == views(loaded.project.soroban.sdk_versions@));
        assert(views(r.project.soroban.evidence@) == views(loaded.project.soroban.evidence@));
    }
    r
}

/// The files known to a synthetic single-file project.
pub open spec fn synthetic_known(file_name: Seq<char>, src: Seq<char>) -> Seq<Seq<char>> {
    known_files("."@, seq![crate::source::parse_source_spec(file_name, "."@, src)])
}

/// The diagnostics of a synthetic single-file project: one warning when the
/// source does not parse.
pub open spec fn synthetic_diagnostics(file_name: Seq<char>, src: Seq<char>) -> Seq<DiagnosticView> {
    match crate::source::parse_source_spec(file_name, "."@, src).parse_error {
        Some(e) => seq![crate::source::file_warning("failed to parse source: "@ + e, file_name)],
        None => Seq::empty(),
    }
}

// ---------------------------------------------------------------------------
// Laws of the pipeline.
// ---------------------------------------------------------------------------
proof fn lemma_key_le_total(a: (Seq<char>, usize, usize, Seq<char>, Seq<char>), b: (Seq<char>, usize, usize, Seq<char>, Seq<char>))
    ensures
        key_le(a, b) || key_le(b, a),
{
    crate::order::lemma_lex_total(a.0, b.0);
    crate::order::lemma_lex_total(a.3, b.3);
    crate::order::lemma_lex_total(a.4, b.4);
}

proof fn lemma_key_le_transitive(
    a: (Seq<char>, usize, usize, Seq<char>, Seq<char>),
    b: (Seq<char>, usize, usize, Seq<char>, Seq<char>),
    c: (Seq<char>, usize, usize, Seq<char>, Seq<char>),
)
    requires
        key_le(a, b),
        key_le(b, c),
    ensures
        key_le(a, c),
{
    if lex_lt(a.0, b.0) && lex_lt(b.0, c.0) {
        crate::order::lemma_lex_transitive(a.0, b.0, c.0);
    }
    if lex_lt(a.3, b.3) && lex_lt(b.3, c.3) {
        crate::order::lemma_lex_transitive(a.3, b.3, c.3);
    }
    if lex_lt(a.4, b.4) && lex_lt(b.4, c.4) {
        crate::order::lemma_lex_transitive(a.4, b.4, c.4);
    }
}

/// Findings in non-decreasing sort-key order.
pub open spec fn sorted_by_key(s: Seq<FindingView>) -> bool {
    forall|i: int, j: int| 0 <= i < j < s.len() ==> key_le(sort_key_of(#[trigger] s[i]), sort_key_of(#[trigger] s[j]))
}

proof fn lemma_insert_contents(s: Seq<FindingView>, x: FindingView)
    ensures
        insert_finding(s, x).len() == s.len() + 1,
        forall|y: FindingView|
            #![trigger insert_finding(s, x).contains(y)]
            insert_finding(s, x).contains(y) <==> (s.contains(y) || y == x),
    decreases s.len(),
{
    if s.len() > 0 && !key_le(sort_key_of(s.last()), sort_key_of(x)) {
        lemma_insert_contents(s.drop_last(), x);
        let r = insert_finding(s.drop_last(), x);
        assert forall|y: FindingView| r.push(s.last()).contains(y) <==> (s.contains(y) || y == x) by {
            if r.push(s.last()).contains(y) {
                let k = choose|k: int| 0 <= k < r.len() + 1 && r.push(s.last())[k] == y;
                if k < r.len() {
                    assert(r[k] == y);
                    assert(r.contains(y));
                    if s.drop_last().contains(y) {
                        let w = choose|w: int| 0 <= w < s.len() - 1 && s.drop_last()[w] == y;
                        assert(s[w] == y);
                    }
                } else {
                    assert(s[s.len() - 1] == y);
                }
            }
            if s.contains(y) {
                let w = choose|w: int| 0 <= w < s.len() && s[w] == y;
                if w < s.len() - 1 {
                    assert(s.drop_last()[w] == y);
                    assert(r.contains(y));
                    let k = choose|k: int| 0 <= k < r.len() && r[k] == y;
                    assert(r.push(s.last())[k] == y);
                } else {
                    assert(r.push(s.last())[r.len() as int] == y);
                }
            }
            if y == x {
                assert(r.contains(x));
                let k = choose|k: int| 0 <= k < r.len() && r[k] == x;
                assert(r.push(s.last())[k] == y);
            }
        }
    } else if s.len() == 0 {
        assert forall|y: FindingView| seq![x].contains(y) <==> (s.contains(y) || y == x) by {
            if seq![x].contains(y) {
                let k = choose|k: int| 0 <= k < 1 && seq![x][k] == y;
            }
            if y == x {
                assert(seq![x][0] == y);
            }
        }
    } else {
        assert forall|y: FindingView| s.push(x).contains(y) <==> (s.contains(y) || y == x) by {
            if s.push(x).contains(y) {
                let k = choose|k: int| 0 <= k < s.len() + 1 && s.push(x)[k] == y;
                if k < s.len() {
                    assert(s[k] == y);
                }
            }
            if s.contains(y) {
                let w = choose|w: int| 0 <= w < s.len() && s[w] == y;
                assert(s.push(x)[w] == y);
            }
            if y == x {
                assert(s.push(x)[s.len() as int] == y);
            }
        }
    }
}

proof fn lemma_insert_sorted(s: Seq<FindingView>, x: FindingView)
    requires
        sorted_by_key(s),
    ensures
        sorted_by_key(insert_finding(s, x)),
    decreases s.len(),
{
    if s.len() == 0 {
    } else if key_le(sort_key_of(s.last()), sort_key_of(x)) {
        let r = s.push(x);
        assert forall|i: int, j: int| 0 <= i < j < r.len() implies key_le(sort_key_of(#[trigger] r[i]), sort_key_of(#[trigger] r[j])) by {
            if j == s.len() {
                if i < s.len() - 1 {
                    lemma_key_le_transitive(sort_key_of(s[i]), sort_key_of(s.last()), sort_key_of(x));
                }
            }
        }
    } else {
        let p = s.drop_last();
        assert(sorted_by_key(p)) by {
            assert forall|i: int, j: int| 0 <= i < j < p.len() implies key_le(sort_key_of(#[trigger] p[i]), sort_key_of(#[trigger] p[j])) by {
                assert(p[i] == s[i] && p[j] == s[j]);
            }
        }
        lemma_insert_sorted(p, x);
        lemma_insert_contents(p, x);
        let q = insert_finding(p, x);
        let r = q.push(s.last());
        lemma_key_le_total(sort_key_of(s.last()), sort_key_of(x));
        assert forall|i: int, j: int| 0 <= i < j < r.len() implies key_le(sort_key_of(#[trigger] r[i]), sort_key_of(#[trigger] r[j])) by {
            if j == q.len() {
                assert(q.contains(q[i]));
                if q[i] != x {
                    assert(p.contains(q[i]));
                    let w = choose|w: int| 0 <= w < p.len() && p[w] == q[i];
                    assert(s[w] == p[w]);
                }
            } else {
                assert(r[i] == q[i] && r[j] == q[j]);
            }
        }
    }
}

proof fn lemma_sort_sorted(s: Seq<FindingView>)
    ensures
        sorted_by_key(sort_findings(s)),
        forall|y: FindingView| sort_findings(s).contains(y) <==> s.contains(y),
    decreases s.len(),
{
    if s.len() > 0 {
        lemma_sort_sorted(s.drop_last());
        lemma_insert_sorted(sort_findings(s.drop_last()), s.last());
        lemma_insert_contents(sort_findings(s.drop_last()), s.last());
        assert forall|y: FindingView| sort_findings(s).contains(y) <==> s.contains(y) by {
            if s.contains(y) {
                let w = choose|w: int| 0 <= w < s.len() && s[w] == y;
                if w < s.len() - 1 {
                    assert(s.drop_last()[w] == y);
                }
            }
            if s.drop_last().contains(y) {
                let w = choose|w: int| 0 <= w < s.len() - 1 && s.drop_last()[w] == y;
                assert(s[w] == y);
            }
        }
    }
}

proof fn lemma_dedup(s: Seq<FindingView>)
    requires
        sorted_by_key(s),
    ensures
        sorted_by_key(dedup_findings(s)),
        forall|y: FindingView| dedup_findings(s).contains(y) ==> s.contains(y),
        forall|i: int, j: int|
            0 <= i < j < dedup_findings(s).len() ==> identity_of(#[trigger] dedup_findings(s)[i]) != identity_of(
                #[trigger] dedup_findings(s)[j],
            ),
    decreases s.len(),
{
    if s.len() > 0 {
        let p = s.drop_last();
        assert(sorted_by_key(p)) by {
            assert forall|i: int, j: int| 0 <= i < j < p.len() implies key_le(sort_key_of(#[trigger] p[i]), sort_key_of(#[trigger] p[j])) by {
                assert(p[i] == s[i] && p[j] == s[j]);
            }
        }
        lemma_dedup(p);
        let r = dedup_findings(p);
        assert forall|y: FindingView| r.contains(y) implies s.contains(y) by {
            assert(p.contains(y));
            let w = choose|w: int| 0 <= w < p.len() && p[w] == y;
            assert(s[w] == y);
        }
        if !identities(r).contains(identity_of(s.last())) {
            let t = r.push(s.last());
            assert forall|i: int, j: int| 0 <= i < j < t.len() implies key_le(sort_key_of(#[trigger] t[i]), sort_key_of(#[trigger] t[j])) by {
                if j == r.len() {
                    assert(r.contains(r[i]));
                    assert(p.contains(r[i]));
                    let w = choose|w: int| 0 <= w < p.len() && p[w] == r[i];
                    assert(s[w] == r[i]);
                } else {
                    assert(t[i] == r[i] && t[j] == r[j]);
                }
            }
            assert forall|i: int, j: int| 0 <= i < j < t.len() implies identity_of(#[trigger] t[i]) != identity_of(#[trigger] t[j]) by {
                if j == r.len() {
                    assert(identities(r)[i] == identity_of(r[i]));
                } else {
                    assert(t[i] == r[i] && t[j] == r[j]);
                }
            }
            assert forall|y: FindingView| t.contains(y) implies s.contains(y) by {
                {
                    let k = choose|k: int| 0 <= k < t.len() && t[k] == y;
                    if k < r.len() {
                        assert(r.contains(y));
                    } else {
                        assert(s[s.len() - 1] == y);
                    }
                }
            }
        }
    }
}

/// The findings a scan reports are in sort-key order and no two share an
/// identity: the output is deterministic and free of exact duplicates,
/// whatever the rules produced.
pub proof fn lemma_final_sorted_and_unique(raw: Seq<FindingView>, config: ScanConfig, root: Seq<char>, known: Seq<Seq<char>>)
    ensures
        sorted_by_key(final_findings(raw, config, root, known)),
        forall|i: int, j: int|
            0 <= i < j < final_findings(raw, config, root, known).len() ==> identity_of(
                #[trigger] final_findings(raw, config, root, known)[i],
            ) != identity_of(#[trigger] final_findings(raw, config, root, known)[j]),
{
    let kept = screen(raw, config, root, known).0;
    lemma_sort_sorted(kept);
    lemma_dedup(sort_findings(kept));
}

proof fn lemma_screen_kept(raw: Seq<FindingView>, config: ScanConfig, root: Seq<char>, known: Seq<Seq<char>>)
    ensures
        forall|f: FindingView|
            #![trigger screen(raw, config, root, known).0.contains(f)]
            screen(raw, config, root, known).0.contains(f) ==> {
                &&& safe_relative(f.location.file)
                &&& known.contains(normalize_rel_spec(f.location.file))
                &&& trimmed(f.evidence).len() > 0
                &&& meets_thresholds(f, config)
                &&& f.fingerprint == fingerprint_spec(f.rule_id, f.location.file, f.evidence)
            },
    decreases raw.len(),
{
    if raw.len() > 0 {
        lemma_screen_kept(raw.drop_last(), config, root, known);
        let prev = screen(raw.drop_last(), config, root, known).0;
        let cur = screen(raw, config, root, known).0;
        assert forall|f: FindingView| #![trigger cur.contains(f)] cur.contains(f) implies {
            &&& safe_relative(f.location.file)
            &&& known.contains(normalize_rel_spec(f.location.file))
            &&& trimmed(f.evidence).len() > 0
            &&& meets_thresholds(f, config)
            &&& f.fingerprint == fingerprint_spec(f.rule_id, f.location.file, f.evidence)
        } by {
            let k = choose|k: int| 0 <= k < cur.len() && cur[k] == f;
            if k < prev.len() {
                assert(cur[k] == prev[k]);
                assert(prev.contains(f));
            }
        }
    }
}

/// Every finding a scan reports cites one of the analyzed files by a safe
/// relative path, carries evidence, meets the configured thresholds, and has
/// the fingerprint of its rule, file and evidence: rules cannot fabricate
/// locations or evidence-free findings.
pub proof fn lemma_final_findings_valid(raw: Seq<FindingView>, config: ScanConfig, root: Seq<char>, known: Seq<Seq<char>>, i: int)
    requires
        0 <= i < final_findings(raw, config, root, known).len(),
    ensures
        ({
            let f = final_findings(raw, config, root, known)[i];
            &&& safe_relative(f.location.file)
            &&& known.contains(normalize_rel_spec(f.location.file))
            &&& trimmed(f.evidence).len() > 0
            &&& meets_thresholds(f, config)
            &&& f.fingerprint == fingerprint_spec(f.rule_id, f.location.file, f.evidence)
        }),
{
    let kept = screen(raw, config, root, known).0;
    lemma_sort_sorted(kept);
    lemma_dedup(sort_findings(kept));
    lemma_screen_kept(raw, config, root, known);
    let f = final_findings(raw, config, root, known)[i];
    assert(final_findings(raw, config, root, known).contains(f));
    assert(sort_findings(kept).contains(f));
    assert(kept.contains(f));
}


/// Every finding of a list has a finding of the same identity among those that
/// de-duplication keeps.
proof fn lemma_dedup_covers(s: Seq<FindingView>)
    ensures
        forall|y: FindingView|
            s.contains(y) ==> exists|z: FindingView| #[trigger] dedup_findings(s).contains(z) && identity_of(z)
                == identity_of(y),
    decreases s.len(),
{
    if s.len() > 0 {
        let p = s.drop_last();
        lemma_dedup_covers(p);
        let r = dedup_findings(p);
        let d = dedup_findings(s);
        assert forall|z: FindingView| r.contains(z) implies d.contains(z) by {
            let k = choose|k: int| 0 <= k < r.len() && r[k] == z;
            if d != r {
                assert(d == r.push(s.last()));
                assert(d[k] == z);
            }
        }
        assert forall|y: FindingView| s.contains(y) implies exists|z: FindingView| #[trigger] d.contains(z)
            && identity_of(z) == identity_of(y) by {
            let w = choose|w: int| 0 <= w < s.len() && s[w] == y;
            if w < s.len() - 1 {
                assert(p[w] == y);
                assert(p.contains(y));
                let z = choose|z: FindingView| #[trigger] r.contains(z) && identity_of(z) == identity_of(y);
                assert(d.contains(z));
            } else if identities(r).contains(identity_of(y)) {
                let k = choose|k: int| 0 <= k < identities(r).len() && identities(r)[k] == identity_of(y);
                assert(r.contains(r[k]));
                assert(d.contains(r[k]));
            } else {
                assert(d == r.push(y));
                assert(d[r.len() as int] == y);
                assert(d.contains(y));
            }
        }
    }
}

/// De-duplication is exact: a finding that passes validation and the
/// thresholds is dropped only for another final finding with the same rule
/// id, file (with `/` separators), line, column and whitespace-normalized
/// evidence. In particular, valid findings on different lines all remain.
pub proof fn lemma_final_keeps_every_position(
    raw: Seq<FindingView>,
    config: ScanConfig,
    root: Seq<char>,
    known: Seq<Seq<char>>,
)
    ensures
        forall|f: FindingView|
            #![trigger screen(raw, config, root, known).0.contains(f)]
            screen(raw, config, root, known).0.contains(f) ==> exists|g: FindingView|
                #[trigger] final_findings(raw, config, root, known).contains(g) && g.rule_id == f.rule_id
                    && slash_path(g.location.file) == slash_path(f.location.file) && g.location.line
                    == f.location.line && (match g.location.column {
                    Some(c) => c,
                    None => 0usize,
                }) == (match f.location.column {
                    Some(c) => c,
                    None => 0usize,
                }) && text::collapse_ws(g.evidence) == text::collapse_ws(f.evidence),
{
    let kept = screen(raw, config, root, known).0;
    lemma_sort_sorted(kept);
    lemma_dedup_covers(sort_findings(kept));
    assert forall|f: FindingView| #[trigger] kept.contains(f) implies exists|g: FindingView|
        #[trigger] final_findings(raw, config, root, known).contains(g) && g.rule_id == f.rule_id
            && slash_path(g.location.file) == slash_path(f.location.file) && g.location.line
            == f.location.line && (match g.location.column {
            Some(c) => c,
            None => 0usize,
        }) == (match f.location.column {
            Some(c) => c,
            None => 0usize,
        }) && text::collapse_ws(g.evidence) == text::collapse_ws(f.evidence) by {
        assert(sort_findings(kept).contains(f));
        let g = choose|g: FindingView| #[trigger] dedup_findings(sort_findings(kept)).contains(g) && identity_of(g)
            == identity_of(f);
        assert(final_findings(raw, config, root, known).contains(g));
    }
}

} // verus!
