//! The finding model: everything the scanner reports about a security issue.
use vstd::prelude::*;
use vstd::utf8::encode_utf8;

use sha2::Digest;

use crate::category::Category;
use crate::confidence::Confidence;
use crate::rule::RuleMetadata;
use crate::severity::Severity;
use crate::text;

verus! {

/// Abstract view of a [`SourceLocation`].
pub struct LocationView {
    pub file: Seq<char>,
    pub line: usize,
    pub column: Option<usize>,
    pub end_line: Option<usize>,
    pub end_column: Option<usize>,
}

/// A precise location in the scanned source.
#[derive(Debug, Clone, PartialEq, Eq)]
pub struct SourceLocation {
    /// Source file, relative to the scan root where possible.
    pub file: String,
    /// 1-based line number.
    pub line: usize,
    /// 1-based column number, when known.
    pub column: Option<usize>,
    /// 1-based end line, when known.
    pub end_line: Option<usize>,
    /// 1-based end column, when known.
    pub end_column: Option<usize>,
}

impl View for SourceLocation {
    type V = LocationView;

    open spec fn view(&self) -> LocationView {
        LocationView {
            file: self.file@,
            line: self.line,
            column: self.column,
            end_line: self.end_line,
            end_column: self.end_column,
        }
    }
}

/// `file:line` or `file:line:column`.
pub open spec fn location_label(l: LocationView) -> Seq<char> {
    match l.column {
        Some(c) => l.file + ":"@ + text::decimal(l.line as nat) + ":"@ + text::decimal(c as nat),
        None => l.file + ":"@ + text::decimal(l.line as nat),
    }
}

impl SourceLocation {
    /// Creates a location from a file and line.
    pub fn new(file: &str, line: usize) -> (r: Self)
        ensures
            r@ == (LocationView {
                file: file@,
                line,
                column: None,
                end_line: None,
                end_column: None,
            }),
    {
        SourceLocation {
            file: text::owned(file),
            line,
            column: None,
            end_line: None,
            end_column: None,
        }
    }

    /// Creates a location with a column.
    pub fn with_column(file: &str, line: usize, column: usize) -> (r: Self)
        ensures
            r@ == (LocationView {
                file: file@,
                line,
                column: Some(column),
                end_line: None,
                end_column: None,
            }),
    {
        SourceLocation {
            file: text::owned(file),
            line,
            column: Some(column),
            end_line: None,
            end_column: None,
        }
    }

    /// Sets the end position.
    pub fn with_end(self, end_line: usize, end_column: Option<usize>) -> (r: Self)
        ensures
            r@ == (LocationView { end_line: Some(end_line), end_column, ..self@ }),
    {
        let mut s = self;
        s.end_line = Some(end_line);
        s.end_column = end_column;
        s
    }

    /// Human-readable `file:line` (and `:column`) label.
    pub fn display_label(&self) -> (r: String)
        ensures
            r@ == location_label(self@),
    {
        let mut r = text::owned(self.file.as_str());
        text::push_str(&mut r, ":");
        text::push_usize(&mut r, self.line);
        match self.column {
            Some(col) => {
                text::push_str(&mut r, ":");
                text::push_usize(&mut r, col);
            },
            None => {},
        }
        r
    }

    /// An exact copy.
    pub fn copy(&self) -> (r: Self)
        ensures
            r@ == self@,
    {
        SourceLocation {
            file: self.file.clone(),
            line: self.line,
            column: self.column,
            end_line: self.end_line,
            end_column: self.end_column,
        }
    }
}

/// Abstract view of a [`Finding`].
pub struct FindingView {
    pub rule_id: Seq<char>,
    pub title: Seq<char>,
    pub description: Seq<char>,
    pub severity: Severity,
    pub confidence: Confidence,
    pub category: Category,
    pub location: LocationView,
    pub evidence: Seq<char>,
    pub remediation: Seq<char>,
    pub references: Seq<Seq<char>>,
    pub fingerprint: Seq<char>,
}

/// A single security finding.
#[derive(Debug, Clone, PartialEq, Eq)]
pub struct Finding {
    /// Stable rule identifier (for example `SS-001`).
    pub rule_id: String,
    /// Short title.
    pub title: String,
    /// Longer description of the issue.
    pub description: String,
    /// Impact severity.
    pub severity: Severity,
    /// Detection confidence.
    pub confidence: Confidence,
    /// Category.
    pub category: Category,
    /// Source location.
    pub location: SourceLocation,
    /// Concrete evidence from the source.
    pub evidence: String,
    /// Remediation guidance.
    pub remediation: String,
    /// External references.
    pub references: Vec<String>,
    /// Stable fingerprint used for baselines.
    pub fingerprint: String,
}

/// The character views of a list of strings.
pub open spec fn views(v: Seq<String>) -> Seq<Seq<char>> {
    v.map_values(|s: String| s@)
}

/// The character views of a list of string slices.
pub open spec fn str_views(v: Seq<&str>) -> Seq<Seq<char>> {
    v.map_values(|s: &str| s@)
}

impl View for Finding {
    type V = FindingView;

    open spec fn view(&self) -> FindingView {
        FindingView {
            rule_id: self.rule_id@,
            title: self.title@,
            description: self.description@,
            severity: self.severity,
            confidence: self.confidence,
            category: self.category,
            location: self.location@,
            evidence: self.evidence@,
            remediation: self.remediation@,
            references: views(self.references@),
            fingerprint: self.fingerprint@,
        }
    }
}

/// Whether two metadata values describe the same rule: equal as text.
pub open spec fn same_meta(a: RuleMetadata, b: RuleMetadata) -> bool {
    &&& a.id@ == b.id@
    &&& a.title@ == b.title@
    &&& a.description@ == b.description@
    &&& a.category == b.category
    &&& a.default_severity == b.default_severity
    &&& a.default_confidence == b.default_confidence
    &&& a.remediation@ == b.remediation@
    &&& str_views(a.references@) == str_views(b.references@)
}

/// The finding a rule with metadata `meta` reports at `loc` with `evidence`.
pub open spec fn finding_of(meta: RuleMetadata, loc: LocationView, evidence: Seq<char>) -> FindingView {
    FindingView {
        rule_id: meta.id@,
        title: meta.title@,
        description: meta.description@,
        severity: meta.default_severity,
        confidence: meta.default_confidence,
        category: meta.category,
        location: loc,
        evidence,
        remediation: meta.remediation@,
        references: str_views(meta.references@),
        fingerprint: fingerprint_spec(meta.id@, loc.file, evidence),
    }
}

/// Forward-slash form of a path.
pub open spec fn slash_path(p: Seq<char>) -> Seq<char> {
    text::replace_char(p, '\\', '/')
}

/// The sort key of a finding: file, line, column (0 when absent), rule id, fingerprint.
pub open spec fn sort_key_of(f: FindingView) -> (Seq<char>, usize, usize, Seq<char>, Seq<char>) {
    (
        slash_path(f.location.file),
        f.location.line,
        match f.location.column {
            Some(c) => c,
            None => 0,
        },
        f.rule_id,
        f.fingerprint,
    )
}

/// The identity used for exact de-duplication.
pub open spec fn identity_of(f: FindingView) -> (Seq<char>, Seq<char>, usize, usize, Seq<char>) {
    (
        f.rule_id,
        slash_path(f.location.file),
        f.location.line,
        match f.location.column {
            Some(c) => c,
            None => 0,
        },
        text::collapse_ws(f.evidence),
    )
}

/// Copies a list of strings.
pub fn copy_strings(v: &Vec<String>) -> (r: Vec<String>)
    ensures
        views(r@) == views(v@),
        r@.len() == v@.len(),
{
    let mut r: Vec<String> = Vec::new();
    let mut i: usize = 0;
    while i < v.len()
        invariant
            i <= v.len(),
            views(r@) == views(v@).take(i as int),
            r@.len() == i,
        decreases v.len() - i,
    {
        r.push(v[i].clone());
        i = i + 1;
    }
    r
}

impl Finding {
    /// Creates a finding using a rule's metadata defaults.
    pub fn new(meta: &RuleMetadata, location: SourceLocation, evidence: &str) -> (r: Self)
        ensures
            r@ == finding_of(*meta, location@, evidence@),
    {
        let fingerprint = fingerprint_of(meta.id, location.file.as_str(), evidence);
        let mut references: Vec<String> = Vec::new();
        let mut i: usize = 0;
        while i < meta.references.len()
            invariant
                i <= meta.references@.len(),
                views(references@) == str_views(meta.references@).take(i as int),
            decreases meta.references@.len() - i,
        {
            let ghost prev = references@;
            let r = text::owned(meta.references[i]);
            references.push(r);
            assert(views(references@) =~= views(prev).push(r@));
            assert(str_views(meta.references@).take(i + 1) =~= str_views(meta.references@).take(
                i as int,
            ).push(meta.references@[i as int]@));
            i = i + 1;
        }
        assert(str_views(meta.references@).take(i as int) =~= str_views(meta.references@));
        Finding {
            rule_id: text::owned(meta.id),
            title: text::owned(meta.title),
            description: text::owned(meta.description),
            severity: meta.default_severity,
            confidence: meta.default_confidence,
            category: meta.category,
            location,
            evidence: text::owned(evidence),
            remediation: text::owned(meta.remediation),
            references,
            fingerprint,
        }
    }

    /// Recomputes the fingerprint (after mutating location/evidence).
    pub fn refresh_fingerprint(&mut self)
        ensures
            final(self)@ == (FindingView {
                fingerprint: fingerprint_spec(old(self)@.rule_id, old(self)@.location.file, old(self)@.evidence),
                ..old(self)@
            }),
    {
        self.fingerprint = fingerprint_of(self.rule_id.as_str(), self.location.file.as_str(), self.evidence.as_str());
    }

    /// Deterministic sort key: file, line, column, rule id, fingerprint.
    pub fn sort_key(&self) -> (r: (String, usize, usize, String, String))
        ensures
            (r.0@, r.1, r.2, r.3@, r.4@) == sort_key_of(self@),
    {
        let col = match self.location.column {
            Some(c) => c,
            None => 0,
        };
        (
            text::replace_char_exec(self.location.file.as_str(), '\\', '/'),
            self.location.line,
            col,
            self.rule_id.clone(),
            self.fingerprint.clone(),
        )
    }

    /// Identity used for exact de-duplication.
    pub fn identity(&self) -> (r: (String, String, usize, usize, String))
        ensures
            (r.0@, r.1@, r.2, r.3, r.4@) == identity_of(self@),
    {
        let col = match self.location.column {
            Some(c) => c,
            None => 0,
        };
        (
            self.rule_id.clone(),
            text::replace_char_exec(self.location.file.as_str(), '\\', '/'),
            self.location.line,
            col,
            normalize_evidence(self.evidence.as_str()),
        )
    }

    /// An exact copy.
    pub fn copy(&self) -> (r: Self)
        ensures
            r@ == self@,
    {
        Finding {
            rule_id: self.rule_id.clone(),
            title: self.title.clone(),
            description: self.description.clone(),
            severity: self.severity,
            confidence: self.confidence,
            category: self.category,
            location: self.location.copy(),
            evidence: self.evidence.clone(),
            remediation: self.remediation.clone(),
            references: copy_strings(&self.references),
            fingerprint: self.fingerprint.clone(),
        }
    }
}

/// Normalizes evidence text so fingerprints are whitespace-insensitive.
pub fn normalize_evidence(evidence: &str) -> (r: String)
    ensures
        r@ == text::collapse_ws(evidence@),
{
    text::collapse_whitespace(evidence)
}

/// SHA-256 of a byte sequence (32 bytes).
pub uninterp spec fn sha256_of(data: Seq<u8>) -> Seq<u8>;

/// Lowercase hexadecimal digit.
pub open spec fn hex_digit(n: nat) -> char {
    if n < 10 {
        text::digit_char(n)
    } else if n == 10 {
        'a'
    } else if n == 11 {
        'b'
    } else if n == 12 {
        'c'
    } else if n == 13 {
        'd'
    } else if n == 14 {
        'e'
    } else {
        'f'
    }
}

/// Lowercase hexadecimal encoding, two digits per byte.
pub open spec fn hex_lower(data: Seq<u8>) -> Seq<char>
    decreases data.len(),
{
    if data.len() == 0 {
        Seq::empty()
    } else {
        seq![hex_digit((data[0] / 16) as nat), hex_digit((data[0] % 16) as nat)] + hex_lower(
            data.drop_first(),
        )
    }
}

/// The bytes that are hashed for a fingerprint: rule id, file (forward
/// slashes) and normalized evidence, separated by NUL bytes.
pub open spec fn fingerprint_message(rule_id: Seq<char>, file: Seq<char>, evidence: Seq<char>) -> Seq<u8> {
    encode_utf8(rule_id) + seq![0u8] + encode_utf8(slash_path(file)) + seq![0u8] + encode_utf8(
        text::collapse_ws(evidence),
    )
}

/// A finding fingerprint: the first 16 bytes of the SHA-256 of the message, in hex.
pub open spec fn fingerprint_spec(rule_id: Seq<char>, file: Seq<char>, evidence: Seq<char>) -> Seq<char> {
    hex_lower(sha256_of(fingerprint_message(rule_id, file, evidence)).take(16))
}

/// SHA-256 digest of `data`.
///
/// Calls `sha2::Sha256::digest`. The contract names the digest `sha256_of`
/// and states the output size of SHA-256, 32 bytes.
#[verifier::external_body]
fn sha256_digest(data: &[u8]) -> (r: Vec<u8>)
    ensures
        r@ == sha256_of(data@),
        r@.len() == 32,
{
    sha2::Sha256::digest(data).to_vec()
}

/// Lowercase hexadecimal encoding of `data`.
///
/// Calls `hex::encode`, documented to encode each byte as two lowercase
/// hexadecimal characters, high nibble first.
#[verifier::external_body]
fn hex_encode(data: &[u8]) -> (r: String)
    ensures
        r@ == hex_lower(data@),
{
    hex::encode(data)
}

/// Appends the bytes of a slice to a byte vector.
fn push_bytes(out: &mut Vec<u8>, bytes: &[u8])
    ensures
        final(out)@ == old(out)@ + bytes@,
{
    let mut i: usize = 0;
    while i < bytes.len()
        invariant
            i <= bytes@.len(),
            out@ == old(out)@ + bytes@.take(i as int),
        decreases bytes@.len() - i,
    {
        out.push(bytes[i]);
        i = i + 1;
        assert(bytes@.take(i as int) == bytes@.take(i - 1).push(bytes@[i - 1]));
    }
    assert(bytes@.take(bytes@.len() as int) == bytes@);
}

/// Computes a stable fingerprint for a rule/file/evidence triple.
///
/// The line number is intentionally excluded so that findings survive
/// unrelated line shifts (important for baselines).
pub fn fingerprint_of(rule_id: &str, file: &str, evidence: &str) -> (r: String)
    ensures
        r@ == fingerprint_spec(rule_id@, file@, evidence@),
        r@.len() == 32,
{
    let slashed = text::replace_char_exec(file, '\\', '/');
    let normalized = normalize_evidence(evidence);
    let mut message: Vec<u8> = Vec::new();
    push_bytes(&mut message, rule_id.as_bytes());
    message.push(0u8);
    push_bytes(&mut message, slashed.as_str().as_bytes());
    message.push(0u8);
    push_bytes(&mut message, normalized.as_str().as_bytes());
    assert(message@ == fingerprint_message(rule_id@, file@, evidence@));
    let digest = sha256_digest(message.as_slice());
    let mut head: Vec<u8> = Vec::new();
    let mut i: usize = 0;
    while i < 16
        invariant
            i <= 16,
            digest@.len() == 32,
            head@ == digest@.take(i as int),
        decreases 16 - i,
    {
        head.push(digest[i]);
        i = i + 1;
    }
    proof {
        lemma_hex_len(head@);
    }
    hex_encode(head.as_slice())
}

/// Hex encoding doubles the length.
pub proof fn lemma_hex_len(data: Seq<u8>)
    ensures
        hex_lower(data).len() == 2 * data.len(),
    decreases data.len(),
{
    if data.len() > 0 {
        lemma_hex_len(data.drop_first());
    }
}

/// Fingerprints ignore whitespace differences in the evidence and never depend
/// on the line: two findings of one rule in one file whose evidence has the
/// same words get the same 32-character fingerprint.
pub proof fn lemma_fingerprint_whitespace_insensitive(
    rule_id: Seq<char>,
    file: Seq<char>,
    e1: Seq<char>,
    e2: Seq<char>,
)
    requires
        text::collapse_ws(e1) == text::collapse_ws(e2),
    ensures
        fingerprint_spec(rule_id, file, e1) == fingerprint_spec(rule_id, file, e2),
{
}

} // verus!
