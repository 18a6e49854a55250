//! Finding severity.
use vstd::prelude::*;

use crate::text;

verus! {

/// Severity of a security finding, ordered from least to most severe.
#[derive(Debug, Clone, Copy, PartialEq, Eq, PartialOrd, Ord, Hash, Structural)]
pub enum Severity {
    /// Informational; no direct security impact.
    Info,
    /// Minor weakness or hardening opportunity.
    Low,
    /// Security weakness that contributes to an exploit.
    Medium,
    /// Serious security impact under plausible conditions.
    High,
    /// Direct loss of funds or total loss of access control.
    Critical,
}

/// Numeric rank of a severity (higher is more severe).
pub open spec fn severity_rank(s: Severity) -> nat {
    match s {
        Severity::Info => 0,
        Severity::Low => 1,
        Severity::Medium => 2,
        Severity::High => 3,
        Severity::Critical => 4,
    }
}

/// Stable lowercase name of a severity.
pub open spec fn severity_name(s: Severity) -> Seq<char> {
    match s {
        Severity::Info => "info"@,
        Severity::Low => "low"@,
        Severity::Medium => "medium"@,
        Severity::High => "high"@,
        Severity::Critical => "critical"@,
    }
}

/// The severity a (trimmed, lowercased) name denotes, if any.
pub open spec fn severity_from_name(n: Seq<char>) -> Option<Severity> {
    if n == "info"@ {
        Some(Severity::Info)
    } else if n == "low"@ {
        Some(Severity::Low)
    } else if n == "medium"@ || n == "med"@ {
        Some(Severity::Medium)
    } else if n == "high"@ {
        Some(Severity::High)
    } else if n == "critical"@ || n == "crit"@ {
        Some(Severity::Critical)
    } else {
        None
    }
}

/// What parsing `s` as a severity gives: the severity, or the error message.
pub open spec fn severity_parse_result(s: Seq<char>) -> Result<Severity, Seq<char>> {
    let n = text::lower(text::trimmed(s));
    match severity_from_name(n) {
        Some(v) => Ok(v),
        None => Err("unknown severity: "@ + n),
    }
}

impl Severity {
    /// Stable lowercase name.
    pub fn as_str(self) -> (r: &'static str)
        ensures
            r@ == severity_name(self),
    {
        match self {
            Severity::Info => "info",
            Severity::Low => "low",
            Severity::Medium => "medium",
            Severity::High => "high",
            Severity::Critical => "critical",
        }
    }

    /// Numeric rank (higher is more severe).
    pub fn rank(self) -> (r: u8)
        ensures
            r == severity_rank(self),
    {
        match self {
            Severity::Info => 0,
            Severity::Low => 1,
            Severity::Medium => 2,
            Severity::High => 3,
            Severity::Critical => 4,
        }
    }

    /// Returns true if `self` is at least as severe as `threshold`.
    pub fn meets(self, threshold: Severity) -> (r: bool)
        ensures
            r == (severity_rank(self) >= severity_rank(threshold)),
    {
        self.rank() >= threshold.rank()
    }

    /// Parses a severity name, ignoring case and surrounding whitespace.
    pub fn parse_name(s: &str) -> (r: Result<Severity, String>)
        ensures
            match r {
                Ok(v) => severity_parse_result(s@) == Ok::<Severity, Seq<char>>(v),
                Err(e) => severity_parse_result(s@) == Err::<Severity, Seq<char>>(e@),
            },
    {
        let t = text::trim(s);
        let n = text::to_lower(t.as_str());
        let n = n.as_str();
        if text::str_eq(n, "info") {
            Ok(Severity::Info)
        } else if text::str_eq(n, "low") {
            Ok(Severity::Low)
        } else if text::str_eq(n, "medium") || text::str_eq(n, "med") {
            Ok(Severity::Medium)
        } else if text::str_eq(n, "high") {
            Ok(Severity::High)
        } else if text::str_eq(n, "critical") || text::str_eq(n, "crit") {
            Ok(Severity::Critical)
        } else {
            Err(text::concat2("unknown severity: ", n))
        }
    }
}

impl core::str::FromStr for Severity {
    type Err = String;

    fn from_str(s: &str) -> (r: Result<Self, Self::Err>)
        ensures
            match r {
                Ok(v) => severity_parse_result(s@) == Ok::<Severity, Seq<char>>(v),
                Err(e) => severity_parse_result(s@) == Err::<Severity, Seq<char>>(e@),
            },
    {
        Severity::parse_name(s)
    }
}

/// Severity ranks are distinct, so the rank determines the severity.
pub proof fn lemma_rank_injective(a: Severity, b: Severity)
    ensures
        severity_rank(a) == severity_rank(b) ==> a == b,
{
}

/// `meets` is a total preorder: reflexive, transitive, and total.
pub proof fn lemma_meets_total_preorder(a: Severity, b: Severity, c: Severity)
    ensures
        severity_rank(a) >= severity_rank(a),
        severity_rank(a) >= severity_rank(b) && severity_rank(b) >= severity_rank(c)
            ==> severity_rank(a) >= severity_rank(c),
        severity_rank(a) >= severity_rank(b) || severity_rank(b) >= severity_rank(a),
{
}

/// Parsing the stable name of a severity gives that severity back.
pub proof fn lemma_severity_name_round_trip(s: Severity)
    ensures
        severity_parse_result(severity_name(s)) == Ok::<Severity, Seq<char>>(s),
{
    reveal_strlit("info");
    reveal_strlit("low");
    reveal_strlit("medium");
    reveal_strlit("med");
    reveal_strlit("high");
    reveal_strlit("critical");
    reveal_strlit("crit");
    let n = severity_name(s);
    assert(text::lead_ws(n) == 0);
    assert(text::trail_ws(n) == 0);
    assert(text::trimmed(n) =~= n);
    assert(text::lower(n) =~= n);
}

} // verus!
