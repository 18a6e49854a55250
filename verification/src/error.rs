//! Error types for the scanner core.
use vstd::prelude::*;

use crate::text;

verus! {

#[verifier::external_type_specification]
#[verifier::external_body]
pub struct ExIoError(std::io::Error);

/// Top-level error type for scanner operations.
#[derive(Debug)]
pub enum ScanError {
    /// An I/O operation failed for a specific path.
    Io {
        /// Path that triggered the error.
        path: String,
        /// Underlying I/O error.
        source: std::io::Error,
    },
    /// A file could not be parsed.
    Parse {
        /// Path of the unparseable file.
        path: String,
        /// Human-readable explanation.
        message: String,
    },
    /// A configuration file was invalid.
    Config(String),
    /// A baseline file was invalid or incompatible.
    Baseline(String),
    /// A requested rule id does not exist.
    UnknownRule(String),
    /// A path was rejected for security reasons.
    UnsafePath(String),
}

/// The text `std::io::Error` displays.
///
/// Calls `<std::io::Error as Display>::fmt` through `to_string`. Nothing is
/// stated of the text: for operating-system errors it comes from the
/// platform's error tables.
#[verifier::external_body]
fn io_error_text(e: &std::io::Error) -> (r: String) {
    e.to_string()
}

impl ScanError {
    /// Convenience constructor for [`ScanError::Io`].
    pub fn io(path: &str, source: std::io::Error) -> (r: Self)
        ensures
            r matches ScanError::Io { path: p, .. } && p@ == path@,
    {
        ScanError::Io { path: text::owned(path), source }
    }

    /// Convenience constructor for [`ScanError::Parse`].
    pub fn parse(path: &str, message: &str) -> (r: Self)
        ensures
            r matches ScanError::Parse { path: p, message: m } && p@ == path@ && m@ == message@,
    {
        ScanError::Parse { path: text::owned(path), message: text::owned(message) }
    }

    /// The human-readable message for this error.
    pub fn display_text(&self) -> (r: String)
        ensures
            match self {
                ScanError::Io { path, .. } => exists|m: Seq<char>|
                    r@ == "I/O error for "@ + path@ + ": "@ + m,
                ScanError::Parse { path, message } => r@ == "failed to parse "@ + path@ + ": "@
                    + message@,
                ScanError::Config(m) => r@ == "invalid configuration: "@ + m@,
                ScanError::Baseline(m) => r@ == "invalid baseline: "@ + m@,
                ScanError::UnknownRule(m) => r@ == "unknown rule id: "@ + m@,
                ScanError::UnsafePath(m) => r@ == "unsafe path rejected: "@ + m@,
            },
    {
        match self {
            ScanError::Io { path, source } => {
                let mut r = text::concat2("I/O error for ", path.as_str());
                text::push_str(&mut r, ": ");
                let m = io_error_text(source);
                text::push_str(&mut r, m.as_str());
                assert(r@ == "I/O error for "@ + path@ + ": "@ + m@);
                r
            },
            ScanError::Parse { path, message } => {
                let mut r = text::concat2("failed to parse ", path.as_str());
                text::push_str(&mut r, ": ");
                text::push_str(&mut r, message.as_str());
                r
            },
            ScanError::Config(m) => text::concat2("invalid configuration: ", m.as_str()),
            ScanError::Baseline(m) => text::concat2("invalid baseline: ", m.as_str()),
            ScanError::UnknownRule(m) => text::concat2("unknown rule id: ", m.as_str()),
            ScanError::UnsafePath(m) => text::concat2("unsafe path rejected: ", m.as_str()),
        }
    }
}

} // verus!
