//! Baselines: stable finding fingerprints for tracking new vs. known issues.
//!
//! A baseline records the fingerprints of accepted findings. Comparing a scan
//! against a baseline identifies findings that are new, already known, or
//! resolved. Fingerprints deliberately exclude line numbers so unrelated code
//! shifts do not resurrect known findings.
use vstd::prelude::*;

use crate::error::ScanError;
use crate::finding::{slash_path, Finding, FindingView};
use crate::order::lex_le;
use crate::rules::checks::finding_views;
use crate::severity::Severity;
use crate::text;

verus! {

/// Current baseline file format version.
pub const BASELINE_VERSION: u32 = 1;

/// A single baseline entry.
#[derive(Debug)]
pub struct BaselineEntry {
    /// Stable finding fingerprint.
    pub fingerprint: String,
    /// Rule id.
    pub rule_id: String,
    /// Scan-root-relative file.
    pub file: String,
    /// Severity at the time the baseline was written.
    pub severity: Severity,
    /// Finding title.
    pub title: String,
}

/// The value of a [`BaselineEntry`].
pub struct EntryView {
    pub fingerprint: Seq<char>,
    pub rule_id: Seq<char>,
    pub file: Seq<char>,
    pub severity: Severity,
    pub title: Seq<char>,
}

impl View for BaselineEntry {
    type V = EntryView;

    open spec fn view(&self) -> EntryView {
        EntryView {
            fingerprint: self.fingerprint@,
            rule_id: self.rule_id@,
            file: self.file@,
            severity: self.severity,
            title: self.title@,
        }
    }
}

impl BaselineEntry {
    /// An exact copy.
    pub fn copy(&self) -> (r: Self)
        ensures
            r@ == self@,
    {
        BaselineEntry {
            fingerprint: self.fingerprint.clone(),
            rule_id: self.rule_id.clone(),
            file: self.file.clone(),
            severity: self.severity,
            title: self.title.clone(),
        }
    }
}

/// A baseline document.
#[derive(Debug)]
pub struct Baseline {
    /// Format version.
    pub version: u32,
    /// Tool that produced the baseline.
    pub tool: String,
    /// Tool version that produced the baseline.
    pub tool_version: String,
    /// Accepted findings, sorted by fingerprint for determinism.
    pub findings: Vec<BaselineEntry>,
}

/// The views of a list of entries.
pub open spec fn entry_views(v: Seq<BaselineEntry>) -> Seq<EntryView> {
    v.map_values(|e: BaselineEntry| e@)
}

/// The baseline entry of a finding.
pub open spec fn entry_of(f: FindingView) -> EntryView {
    EntryView {
        fingerprint: f.fingerprint,
        rule_id: f.rule_id,
        file: slash_path(f.location.file),
        severity: f.severity,
        title: f.title,
    }
}

/// Inserts `x` after every entry whose fingerprint is not after its own.
pub open spec fn insert_entry(s: Seq<EntryView>, x: EntryView) -> Seq<EntryView>
    decreases s.len(),
{
    if s.len() == 0 {
        seq![x]
    } else if lex_le(s.last().fingerprint, x.fingerprint) {
        s.push(x)
    } else {
        insert_entry(s.drop_last(), x).push(s.last())
    }
}

/// Entries stably sorted by fingerprint.
pub open spec fn sort_entries(s: Seq<EntryView>) -> Seq<EntryView>
    decreases s.len(),
{
    if s.len() == 0 {
        Seq::empty()
    } else {
        insert_entry(sort_entries(s.drop_last()), s.last())
    }
}

/// Drops each entry whose fingerprint equals that of the entry before it.
pub open spec fn dedup_entries(s: Seq<EntryView>) -> Seq<EntryView>
    decreases s.len(),
{
    if s.len() == 0 {
        Seq::empty()
    } else {
        let r = dedup_entries(s.drop_last());
        if r.len() > 0 && r.last().fingerprint == s.last().fingerprint {
            r
        } else {
            r.push(s.last())
        }
    }
}

/// The entries of a baseline built from findings.
pub open spec fn baseline_entries(fs: Seq<FindingView>) -> Seq<EntryView> {
    dedup_entries(sort_entries(fs.map_values(|f: FindingView| entry_of(f))))
}

/// The fingerprints of a list of entries.
pub open spec fn entry_fingerprints(s: Seq<EntryView>) -> Seq<Seq<char>> {
    s.map_values(|e: EntryView| e.fingerprint)
}

proof fn lemma_insert_entry_at(s: Seq<EntryView>, x: EntryView, j: int)
    requires
        0 <= j <= s.len(),
        forall|k: int| j <= k < s.len() ==> !lex_le(#[trigger] s[k].fingerprint, x.fingerprint),
        j > 0 ==> lex_le(s[j - 1].fingerprint, x.fingerprint),
    ensures
        insert_entry(s, x) == s.insert(j, x),
    decreases s.len(),
{
    if s.len() == 0 {
        assert(s.insert(j, x) =~= seq![x]);
    } else if j == s.len() {
        assert(s.insert(j, x) =~= s.push(x));
    } else {
        assert(!lex_le(s[s.len() - 1].fingerprint, x.fingerprint));
        lemma_insert_entry_at(s.drop_last(), x, j);
        assert(s.drop_last().insert(j, x).push(s.last()) =~= s.insert(j, x));
    }
}

impl Baseline {
    /// The entries of this baseline.
    pub open spec fn entries(&self) -> Seq<EntryView> {
        entry_views(self.findings@)
    }

    /// Builds a baseline from current findings: one entry per distinct
    /// fingerprint (the first in fingerprint order), sorted by fingerprint.
    pub fn from_findings(findings: &[Finding]) -> (r: Self)
        ensures
            r.version == BASELINE_VERSION,
            r.tool@ == crate::tool_name_spec(),
            r.tool_version@ == crate::version_spec(),
            r.entries() == baseline_entries(findings@.map_values(|f: Finding| f@)),
    {
        let ghost ev = findings@.map_values(|f: Finding| f@).map_values(|f: FindingView| entry_of(f));
        let mut sorted: Vec<BaselineEntry> = Vec::new();
        let mut i: usize = 0;
        while i < findings.len()
            invariant
                i <= findings@.len(),
                ev == findings@.map_values(|f: Finding| f@).map_values(|f: FindingView| entry_of(f)),
                entry_views(sorted@) == sort_entries(ev.take(i as int)),
            decreases findings@.len() - i,
        {
            assert(ev.take(i + 1).drop_last() =~= ev.take(i as int));
            let f = &findings[i];
            let x = BaselineEntry {
                fingerprint: f.fingerprint.clone(),
                rule_id: f.rule_id.clone(),
                file: crate::discovery::to_slash(f.location.file.as_str()),
                severity: f.severity,
                title: f.title.clone(),
            };
            assert(x@ == ev[i as int]);
            let ghost sv = entry_views(sorted@);
            let mut pos: usize = sorted.len();
            while pos > 0 && crate::order::compare_strs(
                sorted[pos - 1].fingerprint.as_str(),
                x.fingerprint.as_str(),
            ) > 0
                invariant
                    pos <= sorted@.len(),
                    sv == entry_views(sorted@),
                    forall|q: int| pos <= q < sv.len() ==> !lex_le(#[trigger] sv[q].fingerprint, x@.fingerprint),
                decreases pos,
            {
                proof {
                    crate::order::lemma_lex_asymmetric(sv[pos - 1].fingerprint, x@.fingerprint);
                    crate::order::lemma_lex_irreflexive(x@.fingerprint);
                }
                pos = pos - 1;
            }
            proof {
                if pos > 0 {
                    crate::order::lemma_lex_total(sv[pos - 1].fingerprint, x@.fingerprint);
                }
                lemma_insert_entry_at(sv, x@, pos as int);
            }
            let ghost xv = x@;
            sorted.insert(pos, x);
            assert(entry_views(sorted@) =~= sv.insert(pos as int, xv));
            i = i + 1;
        }
        assert(ev.take(findings@.len() as int) =~= ev);
        let ghost srt = entry_views(sorted@);
        let mut entries: Vec<BaselineEntry> = Vec::new();
        let mut j: usize = 0;
        while j < sorted.len()
            invariant
                j <= sorted@.len(),
                srt == entry_views(sorted@),
                entry_views(entries@) == dedup_entries(srt.take(j as int)),
            decreases sorted@.len() - j,
        {
            assert(srt.take(j + 1).drop_last() =~= srt.take(j as int));
            let e = sorted[j].copy();
            assert(e@ == srt[j as int]);
            let ghost before = entry_views(entries@);
            let dup = entries.len() > 0 && text::str_eq(
                entries[entries.len() - 1].fingerprint.as_str(),
                e.fingerprint.as_str(),
            );
            if !dup {
                entries.push(e);
                assert(entry_views(entries@) =~= before.push(srt[j as int]));
            }
            j = j + 1;
        }
        assert(srt.take(sorted@.len() as int) =~= srt);
        Baseline {
            version: BASELINE_VERSION,
            tool: text::owned(crate::TOOL_NAME),
            tool_version: text::owned(crate::VERSION),
            findings: entries,
        }
    }

    /// The fingerprints of the accepted findings, in order.
    pub fn fingerprints(&self) -> (r: Vec<&str>)
        ensures
            r@.map_values(|s: &str| s@) == entry_fingerprints(self.entries()),
    {
        let mut r: Vec<&str> = Vec::new();
        let mut i: usize = 0;
        while i < self.findings.len()
            invariant
                i <= self.findings@.len(),
                r@.map_values(|s: &str| s@) == entry_fingerprints(self.entries()).take(i as int),
            decreases self.findings@.len() - i,
        {
            let ghost b = r@.map_values(|s: &str| s@);
            r.push(self.findings[i].fingerprint.as_str());
            assert(r@.map_values(|s: &str| s@) =~= b.push(self.findings@[i as int].fingerprint@));
            i = i + 1;
            assert(entry_fingerprints(self.entries()).take(i as int) =~= entry_fingerprints(self.entries()).take(i - 1).push(self.findings@[i - 1].fingerprint@));
        }
        assert(entry_fingerprints(self.entries()).take(self.findings@.len() as int) =~= entry_fingerprints(self.entries()));
        r
    }

    /// Returns true if a finding is present in this baseline.
    pub fn contains(&self, finding: &Finding) -> (r: bool)
        ensures
            r == entry_fingerprints(self.entries()).contains(finding.fingerprint@),
    {
        has_fingerprint(&self.findings, finding.fingerprint.as_str())
    }

    /// Accepts a parsed baseline document of the current format version.
    pub fn check_version(self) -> (r: Result<Self, ScanError>)
        ensures
            self.version == BASELINE_VERSION ==> (r matches Ok(b) && b == self),
            self.version != BASELINE_VERSION ==> (r matches Err(ScanError::Baseline(m)) && m@
                == "unsupported baseline version "@ + text::decimal(self.version as nat) + " (expected 1)"@),
    {
        if self.version == BASELINE_VERSION {
            Ok(self)
        } else {
            let mut m = text::owned("unsupported baseline version ");
            text::push_usize(&mut m, self.version as usize);
            text::push_str(&mut m, " (expected 1)");
            Err(ScanError::Baseline(m))
        }
    }
}

/// Whether some entry has the fingerprint.
fn has_fingerprint(entries: &Vec<BaselineEntry>, fp: &str) -> (r: bool)
    ensures
        r == entry_fingerprints(entry_views(entries@)).contains(fp@),
{
    let mut i: usize = 0;
    while i < entries.len()
        invariant
            i <= entries@.len(),
            forall|k: int| 0 <= k < i ==> (#[trigger] entries@[k]).fingerprint@ != fp@,
        decreases entries@.len() - i,
    {
        if text::str_eq(entries[i].fingerprint.as_str(), fp) {
            assert(entry_fingerprints(entry_views(entries@))[i as int] == fp@);
            return true;
        }
        i = i + 1;
    }
    assert(!entry_fingerprints(entry_views(entries@)).contains(fp@)) by {
        if entry_fingerprints(entry_views(entries@)).contains(fp@) {
            let k = choose|k: int| 0 <= k < entries@.len() && entry_fingerprints(entry_views(entries@))[k] == fp@;
            assert(entries@[k].fingerprint@ == fp@);
        }
    }
    false
}

/// Result of comparing findings against a baseline.
#[derive(Debug)]
pub struct Comparison {
    /// Indices (into the findings slice) of findings not in the baseline.
    pub new: Vec<usize>,
    /// Indices of findings already present in the baseline.
    pub existing: Vec<usize>,
    /// Baseline entries no longer present in the scan.
    pub resolved: Vec<BaselineEntry>,
}

impl Comparison {
    /// Number of new findings.
    pub fn new_count(&self) -> (r: usize)
        ensures
            r == self.new@.len(),
    {
        self.new.len()
    }

    /// Number of existing (baselined) findings.
    pub fn existing_count(&self) -> (r: usize)
        ensures
            r == self.existing@.len(),
    {
        self.existing.len()
    }

    /// Number of resolved findings.
    pub fn resolved_count(&self) -> (r: usize)
        ensures
            r == self.resolved@.len(),
    {
        self.resolved.len()
    }
}

/// The indices among the first `n` findings whose fingerprint is (or, with
/// `known == false`, is not) in `fps`, in order.
pub open spec fn indices_where(fs: Seq<FindingView>, fps: Seq<Seq<char>>, known: bool, n: int) -> Seq<usize>
    decreases n,
{
    if n <= 0 {
        Seq::empty()
    } else {
        let r = indices_where(fs, fps, known, n - 1);
        if fps.contains(fs[n - 1].fingerprint) == known {
            r.push((n - 1) as usize)
        } else {
            r
        }
    }
}

/// The entries whose fingerprint no finding has, in order.
pub open spec fn resolved_entries(entries: Seq<EntryView>, fs: Seq<FindingView>) -> Seq<EntryView>
    decreases entries.len(),
{
    if entries.len() == 0 {
        Seq::empty()
    } else {
        let r = resolved_entries(entries.drop_last(), fs);
        if fs.map_values(|f: FindingView| f.fingerprint).contains(entries.last().fingerprint) {
            r
        } else {
            r.push(entries.last())
        }
    }
}

/// Compares findings against a baseline by fingerprint.
pub fn compare(findings: &[Finding], baseline: &Baseline) -> (r: Comparison)
    ensures
        r.new@ == indices_where(
            findings@.map_values(|f: Finding| f@),
            entry_fingerprints(baseline.entries()),
            false,
            findings@.len() as int,
        ),
        r.existing@ == indices_where(
            findings@.map_values(|f: Finding| f@),
            entry_fingerprints(baseline.entries()),
            true,
            findings@.len() as int,
        ),
        entry_views(r.resolved@) == resolved_entries(baseline.entries(), findings@.map_values(|f: Finding| f@)),
{
    let ghost fs = findings@.map_values(|f: Finding| f@);
    let ghost fps = entry_fingerprints(baseline.entries());
    let mut new: Vec<usize> = Vec::new();
    let mut existing: Vec<usize> = Vec::new();
    let mut current: Vec<String> = Vec::new();
    let mut i: usize = 0;
    while i < findings.len()
        invariant
            i <= findings@.len(),
            fs == findings@.map_values(|f: Finding| f@),
            fps == entry_fingerprints(baseline.entries()),
            new@ == indices_where(fs, fps, false, i as int),
            existing@ == indices_where(fs, fps, true, i as int),
            crate::finding::views(current@) == fs.take(i as int).map_values(|f: FindingView| f.fingerprint),
        decreases findings@.len() - i,
    {
        let f = &findings[i];
        assert(fs[i as int] == f@);
        let ghost cb = crate::finding::views(current@);
        current.push(f.fingerprint.clone());
        assert(crate::finding::views(current@) =~= cb.push(f.fingerprint@));
        assert(fs.take(i + 1).map_values(|f: FindingView| f.fingerprint) =~= fs.take(i as int).map_values(
            |f: FindingView| f.fingerprint,
        ).push(f.fingerprint@));
        if has_fingerprint(&baseline.findings, f.fingerprint.as_str()) {
            existing.push(i);
        } else {
            new.push(i);
        }
        i = i + 1;
    }
    assert(fs.take(findings@.len() as int) =~= fs);
    let ghost cur = fs.map_values(|f: FindingView| f.fingerprint);
    let mut resolved: Vec<BaselineEntry> = Vec::new();
    let ghost es = baseline.entries();
    let mut j: usize = 0;
    while j < baseline.findings.len()
        invariant
            j <= baseline.findings@.len(),
            es == baseline.entries(),
            crate::finding::views(current@) == cur,
            cur == fs.map_values(|f: FindingView| f.fingerprint),
            entry_views(resolved@) == resolved_entries(es.take(j as int), fs),
        decreases baseline.findings@.len() - j,
    {
        assert(es.take(j + 1).drop_last() =~= es.take(j as int));
        let e = &baseline.findings[j];
        assert(es[j as int] == e@);
        if !crate::order::list_contains(&current, e.fingerprint.as_str()) {
            let ghost b = entry_views(resolved@);
            let c = e.copy();
            resolved.push(c);
            assert(entry_views(resolved@) =~= b.push(e@));
        }
        j = j + 1;
    }
    assert(es.take(baseline.findings@.len() as int) =~= es);
    Comparison { new, existing, resolved }
}

// ---------------------------------------------------------------------------
// Laws of baselines and comparisons.
// ---------------------------------------------------------------------------
proof fn lemma_insert_entry_fps(s: Seq<EntryView>, x: EntryView)
    ensures
        forall|fp: Seq<char>|
            #![trigger entry_fingerprints(insert_entry(s, x)).contains(fp)]
            entry_fingerprints(insert_entry(s, x)).contains(fp) <==> (entry_fingerprints(s).contains(fp)
                || fp == x.fingerprint),
    decreases s.len(),
{
    let r = insert_entry(s, x);
    if s.len() > 0 && !lex_le(s.last().fingerprint, x.fingerprint) {
        lemma_insert_entry_fps(s.drop_last(), x);
        let q = insert_entry(s.drop_last(), x);
        assert(entry_fingerprints(r) =~= entry_fingerprints(q).push(s.last().fingerprint));
        assert(entry_fingerprints(s) =~= entry_fingerprints(s.drop_last()).push(s.last().fingerprint));
        assert forall|fp: Seq<char>| entry_fingerprints(r).contains(fp) <==> (entry_fingerprints(s).contains(fp) || fp == x.fingerprint) by {
            lemma_push_contains(entry_fingerprints(q), s.last().fingerprint, fp);
            lemma_push_contains(entry_fingerprints(s.drop_last()), s.last().fingerprint, fp);
        }
    } else if s.len() == 0 {
        assert(entry_fingerprints(r) =~= seq![x.fingerprint]);
        assert forall|fp: Seq<char>| entry_fingerprints(r).contains(fp) <==> (entry_fingerprints(s).contains(fp) || fp == x.fingerprint) by {
            if fp == x.fingerprint {
                assert(entry_fingerprints(r)[0] == fp);
            }
        }
    } else {
        assert(entry_fingerprints(r) =~= entry_fingerprints(s).push(x.fingerprint));
        assert forall|fp: Seq<char>| entry_fingerprints(r).contains(fp) <==> (entry_fingerprints(s).contains(fp) || fp == x.fingerprint) by {
            lemma_push_contains(entry_fingerprints(s), x.fingerprint, fp);
        }
    }
}

proof fn lemma_push_contains<A>(s: Seq<A>, x: A, y: A)
    ensures
        s.push(x).contains(y) <==> (s.contains(y) || y == x),
{
    if s.push(x).contains(y) {
        let k = choose|k: int| 0 <= k < s.len() + 1 && s.push(x)[k] == y;
        if k < s.len() {
            assert(s[k] == y);
        }
    }
    if s.contains(y) {
        let k = choose|k: int| 0 <= k < s.len() && s[k] == y;
        assert(s.push(x)[k] == y);
    }
    if y == x {
        assert(s.push(x)[s.len() as int] == y);
    }
}

proof fn lemma_sort_entries_fps(s: Seq<EntryView>)
    ensures
        forall|fp: Seq<char>|
            #![trigger entry_fingerprints(sort_entries(s)).contains(fp)]
            entry_fingerprints(sort_entries(s)).contains(fp) <==> entry_fingerprints(s).contains(fp),
    decreases s.len(),
{
    if s.len() > 0 {
        lemma_sort_entries_fps(s.drop_last());
        lemma_insert_entry_fps(sort_entries(s.drop_last()), s.last());
        assert(entry_fingerprints(s) =~= entry_fingerprints(s.drop_last()).push(s.last().fingerprint));
        assert forall|fp: Seq<char>| entry_fingerprints(sort_entries(s)).contains(fp) <==> entry_fingerprints(s).contains(fp) by {
            lemma_push_contains(entry_fingerprints(s.drop_last()), s.last().fingerprint, fp);
        }
    }
}

proof fn lemma_dedup_entries_fps(s: Seq<EntryView>)
    ensures
        forall|fp: Seq<char>|
            #![trigger entry_fingerprints(dedup_entries(s)).contains(fp)]
            entry_fingerprints(dedup_entries(s)).contains(fp) <==> entry_fingerprints(s).contains(fp),
        dedup_entries(s).len() > 0 ==> s.len() > 0 && dedup_entries(s).last().fingerprint == s.last().fingerprint,
    decreases s.len(),
{
    if s.len() > 0 {
        lemma_dedup_entries_fps(s.drop_last());
        let r = dedup_entries(s.drop_last());
        assert(entry_fingerprints(s) =~= entry_fingerprints(s.drop_last()).push(s.last().fingerprint));
        if r.len() > 0 && r.last().fingerprint == s.last().fingerprint {
            assert forall|fp: Seq<char>| entry_fingerprints(r).contains(fp) <==> entry_fingerprints(s).contains(fp) by {
                lemma_push_contains(entry_fingerprints(s.drop_last()), s.last().fingerprint, fp);
                if fp == s.last().fingerprint {
                    assert(entry_fingerprints(r)[r.len() - 1] == fp);
                }
            }
        } else {
            assert(entry_fingerprints(r.push(s.last())) =~= entry_fingerprints(r).push(s.last().fingerprint));
            assert forall|fp: Seq<char>| entry_fingerprints(r.push(s.last())).contains(fp) <==> entry_fingerprints(s).contains(fp) by {
                lemma_push_contains(entry_fingerprints(s.drop_last()), s.last().fingerprint, fp);
                lemma_push_contains(entry_fingerprints(r), s.last().fingerprint, fp);
            }
        }
    }
}

/// A baseline records exactly the fingerprints of the findings it was built from.
pub proof fn lemma_baseline_fingerprints(fs: Seq<FindingView>)
    ensures
        forall|fp: Seq<char>|
            #![trigger entry_fingerprints(baseline_entries(fs)).contains(fp)]
            entry_fingerprints(baseline_entries(fs)).contains(fp) <==> fs.map_values(
                |f: FindingView| f.fingerprint,
            ).contains(fp),
{
    let ev = fs.map_values(|f: FindingView| entry_of(f));
    lemma_sort_entries_fps(ev);
    lemma_dedup_entries_fps(sort_entries(ev));
    assert(entry_fingerprints(ev) =~= fs.map_values(|f: FindingView| f.fingerprint));
}

proof fn lemma_indices_none(fs: Seq<FindingView>, fps: Seq<Seq<char>>, n: int)
    requires
        0 <= n <= fs.len(),
        forall|i: int| 0 <= i < n ==> fps.contains(#[trigger] fs[i].fingerprint),
    ensures
        indices_where(fs, fps, false, n).len() == 0,
    decreases n,
{
    if n > 0 {
        lemma_indices_none(fs, fps, n - 1);
    }
}

proof fn lemma_resolved_none(es: Seq<EntryView>, fs: Seq<FindingView>)
    requires
        forall|i: int| 0 <= i < es.len() ==> fs.map_values(|f: FindingView| f.fingerprint).contains(#[trigger] es[i].fingerprint),
    ensures
        resolved_entries(es, fs).len() == 0,
    decreases es.len(),
{
    if es.len() > 0 {
        assert(fs.map_values(|f: FindingView| f.fingerprint).contains(es[es.len() - 1].fingerprint));
        lemma_resolved_none(es.drop_last(), fs);
    }
}

/// Comparing findings against the baseline built from them reports nothing
/// new and nothing resolved: every finding is already known.
pub proof fn lemma_compare_with_own_baseline(fs: Seq<FindingView>)
    ensures
        indices_where(fs, entry_fingerprints(baseline_entries(fs)), false, fs.len() as int).len() == 0,
        resolved_entries(baseline_entries(fs), fs).len() == 0,
{
    lemma_baseline_fingerprints(fs);
    let fps = entry_fingerprints(baseline_entries(fs));
    assert forall|i: int| 0 <= i < fs.len() implies fps.contains(#[trigger] fs[i].fingerprint) by {
        assert(fs.map_values(|f: FindingView| f.fingerprint)[i] == fs[i].fingerprint);
    }
    lemma_indices_none(fs, fps, fs.len() as int);
    let es = baseline_entries(fs);
    assert forall|i: int| 0 <= i < es.len() implies fs.map_values(|f: FindingView| f.fingerprint).contains(#[trigger] es[i].fingerprint) by {
        assert(fps[i] == es[i].fingerprint);
        assert(fps.contains(es[i].fingerprint));
    }
    lemma_resolved_none(es, fs);
}

/// Every finding is either new or existing, never both: the two index lists
/// together hold each index below `n` exactly once.
pub proof fn lemma_new_existing_partition(fs: Seq<FindingView>, fps: Seq<Seq<char>>, n: int)
    requires
        0 <= n <= fs.len(),
        fs.len() <= usize::MAX,
    ensures
        indices_where(fs, fps, false, n).len() + indices_where(fs, fps, true, n).len() == n,
        forall|i: int|
            0 <= i < n ==> (indices_where(fs, fps, false, n).contains(i as usize) <==> !fps.contains(
                #[trigger] fs[i].fingerprint,
            )),
        forall|i: int|
            0 <= i < n ==> (indices_where(fs, fps, true, n).contains(i as usize) <==> fps.contains(
                #[trigger] fs[i].fingerprint,
            )),
        forall|k: int| 0 <= k < indices_where(fs, fps, false, n).len() ==> #[trigger] indices_where(fs, fps, false, n)[k] < n,
        forall|k: int| 0 <= k < indices_where(fs, fps, true, n).len() ==> #[trigger] indices_where(fs, fps, true, n)[k] < n,
    decreases n,
{
    if n > 0 {
        lemma_new_existing_partition(fs, fps, n - 1);
        lemma_step(fs, fps, false, n);
        lemma_step(fs, fps, true, n);
    }
}

proof fn lemma_step(fs: Seq<FindingView>, fps: Seq<Seq<char>>, known: bool, n: int)
    requires
        0 < n <= fs.len(),
        fs.len() <= usize::MAX,
        forall|i: int|
            0 <= i < n - 1 ==> (indices_where(fs, fps, known, n - 1).contains(i as usize) <==> (fps.contains(
                #[trigger] fs[i].fingerprint,
            ) == known)),
        forall|k: int| 0 <= k < indices_where(fs, fps, known, n - 1).len() ==> #[trigger] indices_where(fs, fps, known, n - 1)[k] < n - 1,
    ensures
        forall|i: int|
            0 <= i < n ==> (indices_where(fs, fps, known, n).contains(i as usize) <==> (fps.contains(
                #[trigger] fs[i].fingerprint,
            ) == known)),
        forall|k: int| 0 <= k < indices_where(fs, fps, known, n).len() ==> #[trigger] indices_where(fs, fps, known, n)[k] < n,
{
    let a = indices_where(fs, fps, known, n - 1);
    let r = indices_where(fs, fps, known, n);
    assert forall|i: int| 0 <= i < n implies (r.contains(i as usize) <==> (fps.contains(#[trigger] fs[i].fingerprint) == known)) by {
        lemma_push_contains(a, (n - 1) as usize, i as usize);
        if i == n - 1 {
            if a.contains(i as usize) {
                let k = choose|k: int| 0 <= k < a.len() && a[k] == i as usize;
                assert(a[k] < n - 1);
            }
        } else {
            assert((i as usize) != ((n - 1) as usize));
        }
    }
    assert forall|k: int| 0 <= k < r.len() implies #[trigger] r[k] < n by {
        if k < a.len() {
            assert(r[k] == a[k]);
        }
    }
}

} // verus!
