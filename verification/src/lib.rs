//! Soroban Security Scanner — core analysis engine.
use vstd::prelude::*;

pub mod ai;
pub mod baseline;
pub mod category;
pub mod confidence;
pub mod config;
pub mod context;
pub mod discovery;
pub mod engine;
pub mod error;
pub mod finding;
pub mod json;
pub mod lexdepth;
pub mod manifest;
pub mod model;
pub mod order;
pub mod path;
pub mod project;
pub mod registry;
pub mod report;
pub mod report_json;
pub mod rule;
pub mod rules;
pub mod sarif;
pub mod severity;
pub mod soroban;
pub mod source;
pub mod syntax;
pub mod text;

verus! {

/// Crate version.
pub const VERSION: &'static str = "0.1.0";

/// Stable tool name used in reports and exit banners.
pub const TOOL_NAME: &'static str = "soroban-scan";

/// The tool name.
pub open spec fn tool_name_spec() -> Seq<char> {
    "soroban-scan"@
}

/// The crate version.
pub open spec fn version_spec() -> Seq<char> {
    "0.1.0"@
}

/// Returns the scanner name and version as a display string.
pub fn version_string() -> (r: String)
    ensures
        r@ == tool_name_spec() + " "@ + version_spec(),
{
    let mut r = text::owned(TOOL_NAME);
    text::push_str(&mut r, " ");
    text::push_str(&mut r, VERSION);
    r
}

} // verus!
