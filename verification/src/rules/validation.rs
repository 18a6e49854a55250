//! Rule metadata and documentation validation.
//!
//! These checks keep the rule catalog consistent and contributor-friendly.
use vstd::prelude::*;

use crate::confidence::Confidence;
use crate::finding::views;
use crate::registry::{is_valid_rule_id, valid_rule_id, RuleRegistry};
use crate::rule::{Rule, RuleMetadata};
use crate::severity::Severity;
use crate::text::{self, has_prefix, trimmed, utf8_prefix_len};

verus! {

/// Minimum length of a rule description, in bytes (after trimming).
pub const MIN_DESCRIPTION_LEN: usize = 40;

/// Number of UTF-8 bytes of a text.
pub open spec fn byte_len(s: Seq<char>) -> nat {
    utf8_prefix_len(s, s.len() as int)
}

/// The issue for a reference that is not a URL (or none).
pub open spec fn reference_issues(id: Seq<char>, refs: Seq<Seq<char>>) -> Seq<Seq<char>>
    decreases refs.len(),
{
    if refs.len() == 0 {
        Seq::empty()
    } else {
        let r = reference_issues(id, refs.drop_last());
        let x = refs.last();
        if has_prefix(x, "https://"@) || has_prefix(x, "http://"@) {
            r
        } else {
            r.push(id + ": reference is not a URL: "@ + x)
        }
    }
}

/// `msg` when `cond` holds, nothing otherwise.
pub open spec fn issue_if(cond: bool, msg: Seq<char>) -> Seq<Seq<char>> {
    if cond {
        seq![msg]
    } else {
        Seq::empty()
    }
}

/// The human-readable issues of a rule's metadata, in order.
pub open spec fn metadata_issues(m: RuleMetadata) -> Seq<Seq<char>> {
    let id = m.id@;
    issue_if(!valid_rule_id(id), "invalid rule id: "@ + id) + issue_if(
        trimmed(m.title@).len() == 0,
        id + ": title is empty"@,
    ) + issue_if(
        byte_len(trimmed(m.description@)) < MIN_DESCRIPTION_LEN,
        id + ": description is too short (min 40 chars)"@,
    ) + issue_if(trimmed(m.remediation@).len() == 0, id + ": remediation is empty"@) + issue_if(
        m.references@.len() == 0,
        id + ": at least one reference is required"@,
    ) + reference_issues(id, m.references@.map_values(|r: &str| r@)) + issue_if(
        m.default_severity == Severity::Critical && m.default_confidence == Confidence::High,
        id + ": critical severity with high confidence is not allowed for heuristics"@,
    )
}

/// Whether a text is shorter than `min` UTF-8 bytes.
fn shorter_than(s: &str, min: usize) -> (r: bool)
    requires
        min <= 64,
    ensures
        r == (byte_len(s@) < min),
{
    let cs = text::chars_of(s);
    let mut n: usize = 0;
    let mut i: usize = 0;
    while i < cs.len() && n < min
        invariant
            i <= cs.len(),
            cs@ == s@,
            min <= 64,
            n == utf8_prefix_len(s@, i as int),
            n < min + 4,
        decreases cs.len() - i,
    {
        let u = cs[i] as u32;
        let w: usize = if u < 0x80 {
            1
        } else if u < 0x800 {
            2
        } else if u < 0x10000 {
            3
        } else {
            4
        };
        n = n + w;
        i = i + 1;
    }
    proof {
        text::lemma_prefix_len_mono(s@, i as int, s@.len() as int);
    }
    n < min
}

fn push_issue(issues: &mut Vec<String>, a: &str, b: &str)
    ensures
        views(final(issues)@) == views(old(issues)@).push(a@ + b@),
{
    let s = text::concat2(a, b);
    let ghost before = views(issues@);
    issues.push(s);
    assert(views(issues@) =~= before.push(a@ + b@));
}

/// Validates a single rule's metadata, returning human-readable issues.
pub fn validate_metadata(meta: &RuleMetadata) -> (r: Vec<String>)
    ensures
        views(r@) == metadata_issues(*meta),
{
    let id = meta.id;
    let mut issues: Vec<String> = Vec::new();
    let ghost e = Seq::<Seq<char>>::empty();
    assert(views(issues@) =~= e);
    if !is_valid_rule_id(id) {
        push_issue(&mut issues, "invalid rule id: ", id);
    }
    let ghost s1 = views(issues@);
    assert(s1 =~= e + issue_if(!valid_rule_id(id@), "invalid rule id: "@ + id@));
    if text::trim(meta.title).as_str().is_empty() {
        push_issue(&mut issues, id, ": title is empty");
    }
    let ghost s2 = views(issues@);
    assert(s2 =~= s1 + issue_if(trimmed(meta.title@).len() == 0, id@ + ": title is empty"@));
    if shorter_than(text::trim(meta.description).as_str(), MIN_DESCRIPTION_LEN) {
        push_issue(&mut issues, id, ": description is too short (min 40 chars)");
    }
    let ghost s3 = views(issues@);
    assert(s3 =~= s2 + issue_if(
        byte_len(trimmed(meta.description@)) < MIN_DESCRIPTION_LEN,
        id@ + ": description is too short (min 40 chars)"@,
    ));
    if text::trim(meta.remediation).as_str().is_empty() {
        push_issue(&mut issues, id, ": remediation is empty");
    }
    let ghost s4 = views(issues@);
    assert(s4 =~= s3 + issue_if(trimmed(meta.remediation@).len() == 0, id@ + ": remediation is empty"@));
    if meta.references.len() == 0 {
        push_issue(&mut issues, id, ": at least one reference is required");
    }
    let ghost s5 = views(issues@);
    assert(s5 =~= s4 + issue_if(meta.references@.len() == 0, id@ + ": at least one reference is required"@));
    let ghost rv = meta.references@.map_values(|r: &str| r@);
    let mut i: usize = 0;
    while i < meta.references.len()
        invariant
            i <= meta.references@.len(),
            rv == meta.references@.map_values(|r: &str| r@),
            views(issues@) == s5 + reference_issues(id@, rv.take(i as int)),
        decreases meta.references@.len() - i,
    {
        assert(rv.take(i + 1).drop_last() =~= rv.take(i as int));
        let reference = meta.references[i];
        assert(rv[i as int] == reference@);
        let ghost before = views(issues@);
        if !(text::starts_with(reference, "https://") || text::starts_with(reference, "http://")) {
            let mut msg = text::concat2(id, ": reference is not a URL: ");
            text::push_str(&mut msg, reference);
            issues.push(msg);
            assert(views(issues@) =~= before.push(id@ + ": reference is not a URL: "@ + reference@));
        }
        i = i + 1;
        assert(views(issues@) =~= s5 + reference_issues(id@, rv.take(i as int)));
    }
    assert(rv.take(meta.references@.len() as int) =~= rv);
    let ghost s6 = views(issues@);
    if meta.default_severity == Severity::Critical && meta.default_confidence == Confidence::High {
        push_issue(&mut issues, id, ": critical severity with high confidence is not allowed for heuristics");
    }
    assert(views(issues@) =~= s6 + issue_if(
        meta.default_severity == Severity::Critical && meta.default_confidence == Confidence::High,
        id@ + ": critical severity with high confidence is not allowed for heuristics"@,
    ));
    issues
}

/// The issues of a list of metadata: a duplicate-id issue for an id seen
/// earlier in the list, then the metadata's own issues.
pub open spec fn registry_issues(ms: Seq<RuleMetadata>) -> Seq<Seq<char>>
    decreases ms.len(),
{
    if ms.len() == 0 {
        Seq::empty()
    } else {
        let m = ms.last();
        let earlier = ms.drop_last().map_values(|x: RuleMetadata| x.id@);
        registry_issues(ms.drop_last()) + issue_if(
            earlier.contains(m.id@),
            "duplicate rule id: "@ + m.id@,
        ) + metadata_issues(m)
    }
}

/// Validates every rule in a registry (in id order).
pub fn validate_registry<R: Rule>(registry: &RuleRegistry<R>) -> (r: Vec<String>)
    requires
        registry.wf(),
    ensures
        views(r@) == registry_issues(crate::registry::sort_by_id(registry.metadata_spec())),
{
    let metas = registry.metadata_sorted();
    let mut issues: Vec<String> = Vec::new();
    let mut seen: Vec<String> = Vec::new();
    let mut i: usize = 0;
    assert(views(issues@) =~= registry_issues(metas@.take(0)));
    while i < metas.len()
        invariant
            i <= metas@.len(),
            views(issues@) == registry_issues(metas@.take(i as int)),
            views(seen@) == metas@.take(i as int).map_values(|x: RuleMetadata| x.id@),
        decreases metas@.len() - i,
    {
        let m = metas[i];
        let ghost prefix = metas@.take(i as int);
        assert(metas@.take(i + 1).drop_last() =~= prefix);
        assert(metas@.take(i + 1).last() == m);
        let ghost before = views(issues@);
        if crate::order::list_contains(&seen, m.id) {
            push_issue(&mut issues, "duplicate rule id: ", m.id);
        }
        let mi = validate_metadata(&m);
        let ghost mid = views(issues@);
        let mut k: usize = 0;
        while k < mi.len()
            invariant
                k <= mi@.len(),
                views(issues@) == mid + views(mi@).take(k as int),
            decreases mi@.len() - k,
        {
            let c = mi[k].clone();
            let ghost b = views(issues@);
            assert(c@ == views(mi@)[k as int]);
            issues.push(c);
            assert(views(issues@) =~= b.push(c@));
            k = k + 1;
            assert(views(issues@) =~= mid + views(mi@).take(k as int));
        }
        assert(views(mi@).take(mi@.len() as int) =~= views(mi@));
        let ghost sb = views(seen@);
        seen.push(text::owned(m.id));
        assert(views(seen@) =~= sb.push(m.id@));
        assert(metas@.take(i + 1).map_values(|x: RuleMetadata| x.id@) =~= metas@.take(i as int).map_values(|x: RuleMetadata| x.id@).push(m.id@));
        i = i + 1;
        assert(views(issues@) =~= registry_issues(metas@.take(i as int)));
        assert(views(seen@) =~= metas@.take(i as int).map_values(|x: RuleMetadata| x.id@));
    }
    assert(metas@.take(metas@.len() as int) =~= metas@);
    issues
}

/// The documentation file of a rule: `<docs_root>/rules/detectors/<ID>.md`.
pub open spec fn doc_path_spec(docs_root: Seq<char>, id: Seq<char>) -> Seq<char> {
    crate::path::join_spec(
        crate::path::join_spec(crate::path::join_spec(docs_root, "rules"@), "detectors"@),
        id + ".md"@,
    )
}

/// The documentation file of a rule.
pub fn doc_path(docs_root: &str, id: &str) -> (r: String)
    ensures
        r@ == doc_path_spec(docs_root@, id@),
{
    let a = crate::path::join(docs_root, "rules");
    let b = crate::path::join(a.as_str(), "detectors");
    let name = text::concat2(id, ".md");
    crate::path::join(b.as_str(), name.as_str())
}

/// The issue for a rule whose documentation file is missing.
pub fn missing_doc_issue(id: &str, doc: &str) -> (r: String)
    ensures
        r@ == id@ + ": missing documentation at "@ + doc@,
{
    let mut r = text::concat2(id, ": missing documentation at ");
    text::push_str(&mut r, doc);
    r
}

} // verus!
