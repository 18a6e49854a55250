//! Finding confidence.
use vstd::prelude::*;

use crate::text;

verus! {

/// How certain a detector is that a finding is real, based on the evidence it
/// can observe statically.
#[derive(Debug, Clone, Copy, PartialEq, Eq, PartialOrd, Ord, Hash, Structural)]
pub enum Confidence {
    /// Heuristic; may be a false positive; requires human review.
    Low,
    /// Strong evidence, but assumptions or context are required.
    Medium,
    /// Direct, unambiguous evidence in the source.
    High,
}

/// Position of a confidence level in the order `Low < Medium < High`.
pub open spec fn confidence_level(c: Confidence) -> nat {
    match c {
        Confidence::Low => 0,
        Confidence::Medium => 1,
        Confidence::High => 2,
    }
}

/// Stable lowercase name of a confidence level.
pub open spec fn confidence_name(c: Confidence) -> Seq<char> {
    match c {
        Confidence::Low => "low"@,
        Confidence::Medium => "medium"@,
        Confidence::High => "high"@,
    }
}

/// The confidence a (trimmed, lowercased) name denotes, if any.
pub open spec fn confidence_from_name(n: Seq<char>) -> Option<Confidence> {
    if n == "low"@ {
        Some(Confidence::Low)
    } else if n == "medium"@ || n == "med"@ {
        Some(Confidence::Medium)
    } else if n == "high"@ {
        Some(Confidence::High)
    } else {
        None
    }
}

/// What parsing `s` as a confidence gives: the level, or the error message.
pub open spec fn confidence_parse_result(s: Seq<char>) -> Result<Confidence, Seq<char>> {
    let n = text::lower(text::trimmed(s));
    match confidence_from_name(n) {
        Some(v) => Ok(v),
        None => Err("unknown confidence: "@ + n),
    }
}

impl Confidence {
    /// Stable lowercase name.
    pub fn as_str(self) -> (r: &'static str)
        ensures
            r@ == confidence_name(self),
    {
        match self {
            Confidence::Low => "low",
            Confidence::Medium => "medium",
            Confidence::High => "high",
        }
    }

    /// Returns true if `self` is at least as confident as `threshold`.
    pub fn at_least(self, threshold: Confidence) -> (r: bool)
        ensures
            r == (confidence_level(self) >= confidence_level(threshold)),
    {
        let a: u8 = match self {
            Confidence::Low => 0,
            Confidence::Medium => 1,
            Confidence::High => 2,
        };
        let b: u8 = match threshold {
            Confidence::Low => 0,
            Confidence::Medium => 1,
            Confidence::High => 2,
        };
        a >= b
    }

    /// Parses a confidence name, ignoring case and surrounding whitespace.
    pub fn parse_name(s: &str) -> (r: Result<Confidence, String>)
        ensures
            match r {
                Ok(v) => confidence_parse_result(s@) == Ok::<Confidence, Seq<char>>(v),
                Err(e) => confidence_parse_result(s@) == Err::<Confidence, Seq<char>>(e@),
            },
    {
        let t = text::trim(s);
        let n = text::to_lower(t.as_str());
        let n = n.as_str();
        if text::str_eq(n, "low") {
            Ok(Confidence::Low)
        } else if text::str_eq(n, "medium") || text::str_eq(n, "med") {
            Ok(Confidence::Medium)
        } else if text::str_eq(n, "high") {
            Ok(Confidence::High)
        } else {
            Err(text::concat2("unknown confidence: ", n))
        }
    }
}

impl core::str::FromStr for Confidence {
    type Err = String;

    fn from_str(s: &str) -> (r: Result<Self, Self::Err>)
        ensures
            match r {
                Ok(v) => confidence_parse_result(s@) == Ok::<Confidence, Seq<char>>(v),
                Err(e) => confidence_parse_result(s@) == Err::<Confidence, Seq<char>>(e@),
            },
    {
        Confidence::parse_name(s)
    }
}

/// Parsing the stable name of a confidence level gives that level back.
pub proof fn lemma_confidence_name_round_trip(c: Confidence)
    ensures
        confidence_parse_result(confidence_name(c)) == Ok::<Confidence, Seq<char>>(c),
{
    reveal_strlit("low");
    reveal_strlit("medium");
    reveal_strlit("med");
    reveal_strlit("high");
    let n = confidence_name(c);
    assert(text::lead_ws(n) == 0);
    assert(text::trail_ws(n) == 0);
    assert(text::trimmed(n) =~= n);
    assert(text::lower(n) =~= n);
}

} // verus!
