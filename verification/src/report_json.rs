//! The JSON forms of a scan report and of the rule documentation.
use vstd::prelude::*;

use crate::category::category_name;
use crate::confidence::confidence_name;
use crate::engine::ScanOutcome;
use crate::finding::{slash_path, str_views, views, Finding, FindingView, LocationView};
use crate::json::{
    array, empty_items, empty_members, json_pretty, json_text, json_view, json_views, member_views,
    object, push_item, push_member, str_json, Json, JsonValue,
};
use crate::model::{project_kind_name, Diagnostic, DiagnosticLevel, DiagnosticView};
use crate::registry::RuleRegistry;
use crate::report::{
    markdown_spec, render_markdown, render_rule_detail_text, render_rule_list_text, render_terminal,
    rule_detail_spec, rule_lines, rule_list_header, terminal_spec, OutputFormat, TOOL_URL,
};
use crate::rule::{Rule, RuleMetadata};
use crate::rules::checks::finding_views;
use crate::sarif::{opt_num_member, render_sarif, sarif_spec};
use crate::severity::severity_name;
use crate::source::diagnostic_views;

verus! {

/// A JSON string, or `null`.
pub open spec fn opt_str_json(o: Option<Seq<char>>) -> JsonValue {
    match o {
        Some(s) => JsonValue::Str(s),
        None => JsonValue::Null,
    }
}

/// A JSON number, or `null`.
pub open spec fn opt_num_json(o: Option<usize>) -> JsonValue {
    match o {
        Some(n) => JsonValue::Num(n as nat),
        None => JsonValue::Null,
    }
}

/// JSON strings.
pub open spec fn str_items(v: Seq<Seq<char>>) -> Seq<JsonValue> {
    v.map_values(|s: Seq<char>| JsonValue::Str(s))
}

/// A location: forward-slash file, line, and the known optional positions.
pub open spec fn location_json(l: LocationView) -> JsonValue {
    JsonValue::Object(
        seq![("file"@, JsonValue::Str(slash_path(l.file))), ("line"@, JsonValue::Num(l.line as nat))]
            + opt_num_member("column"@, l.column) + opt_num_member("end_line"@, l.end_line)
            + opt_num_member("end_column"@, l.end_column),
    )
}

/// A finding, field by field.
pub open spec fn finding_json(f: FindingView) -> JsonValue {
    JsonValue::Object(
        seq![
            ("rule_id"@, JsonValue::Str(f.rule_id)),
            ("title"@, JsonValue::Str(f.title)),
            ("description"@, JsonValue::Str(f.description)),
            ("severity"@, JsonValue::Str(severity_name(f.severity))),
            ("confidence"@, JsonValue::Str(confidence_name(f.confidence))),
            ("category"@, JsonValue::Str(category_name(f.category))),
            ("location"@, location_json(f.location)),
            ("evidence"@, JsonValue::Str(f.evidence)),
            ("remediation"@, JsonValue::Str(f.remediation)),
            ("references"@, JsonValue::Array(str_items(f.references))),
            ("fingerprint"@, JsonValue::Str(f.fingerprint)),
        ],
    )
}

/// The name of a diagnostic level.
pub open spec fn level_name(l: DiagnosticLevel) -> Seq<char> {
    match l {
        DiagnosticLevel::Info => "info"@,
        DiagnosticLevel::Warning => "warning"@,
        DiagnosticLevel::Error => "error"@,
    }
}

/// A diagnostic, field by field.
pub open spec fn diagnostic_json(d: DiagnosticView) -> JsonValue {
    JsonValue::Object(
        seq![
            ("level"@, JsonValue::Str(level_name(d.level))),
            ("message"@, JsonValue::Str(d.message)),
            ("path"@, opt_str_json(d.path)),
            ("line"@, opt_num_json(d.line)),
        ],
    )
}

/// The JSON report of a scan.
pub open spec fn report_spec(o: &ScanOutcome) -> JsonValue {
    JsonValue::Object(
        seq![
            (
                "tool"@,
                JsonValue::Object(
                    seq![
                        ("name"@, JsonValue::Str(crate::tool_name_spec())),
                        ("version"@, JsonValue::Str(crate::version_spec())),
                        ("information_uri"@, JsonValue::Str("https://github.com/AyinkxLab/soroban-security-scanner"@)),
                    ],
                ),
            ),
            (
                "project"@,
                JsonValue::Object(
                    seq![
                        ("root"@, JsonValue::Str(o.project.root@)),
                        ("kind"@, JsonValue::Str(project_kind_name(o.project.kind))),
                        ("source_files"@, JsonValue::Num(o.project.source_files as nat)),
                        ("soroban_sdk_versions"@, JsonValue::Array(str_items(views(o.project.soroban.sdk_versions@)))),
                    ],
                ),
            ),
            (
                "stats"@,
                JsonValue::Object(
                    seq![
                        ("files_analyzed"@, JsonValue::Num(o.stats.files_analyzed as nat)),
                        ("rules_run"@, JsonValue::Num(o.stats.rules_run as nat)),
                        ("rules_skipped"@, JsonValue::Num(o.stats.rules_skipped as nat)),
                        ("findings_raw"@, JsonValue::Num(o.stats.findings_raw as nat)),
                        ("findings_rejected"@, JsonValue::Num(o.stats.findings_rejected as nat)),
                    ],
                ),
            ),
            ("findings"@, JsonValue::Array(finding_views(o.findings@).map_values(|f: FindingView| finding_json(f)))),
            (
                "diagnostics"@,
                JsonValue::Array(diagnostic_views(o.diagnostics@).map_values(|d: DiagnosticView| diagnostic_json(d))),
            ),
        ],
    )
}

/// The JSON list entry of a rule.
pub open spec fn rule_entry_json(m: RuleMetadata) -> JsonValue {
    JsonValue::Object(
        seq![
            ("category"@, JsonValue::Str(category_name(m.category))),
            ("confidence"@, JsonValue::Str(confidence_name(m.default_confidence))),
            ("id"@, JsonValue::Str(m.id@)),
            ("severity"@, JsonValue::Str(severity_name(m.default_severity))),
            ("title"@, JsonValue::Str(m.title@)),
        ],
    )
}

/// The JSON documentation of a rule.
pub open spec fn rule_detail_json(m: RuleMetadata) -> JsonValue {
    JsonValue::Object(
        seq![
            ("category"@, JsonValue::Str(category_name(m.category))),
            ("confidence"@, JsonValue::Str(confidence_name(m.default_confidence))),
            ("description"@, JsonValue::Str(m.description@)),
            ("id"@, JsonValue::Str(m.id@)),
            ("references"@, JsonValue::Array(str_items(str_views(m.references@)))),
            ("remediation"@, JsonValue::Str(m.remediation@)),
            ("severity"@, JsonValue::Str(severity_name(m.default_severity))),
            ("title"@, JsonValue::Str(m.title@)),
        ],
    )
}

fn strings_json(v: &Vec<String>) -> (r: Json)
    ensures
        json_view(r) == JsonValue::Array(str_items(views(v@))),
{
    let mut items = empty_items();
    let mut i: usize = 0;
    while i < v.len()
        invariant
            i <= v@.len(),
            json_views(items@) == str_items(views(v@)).take(i as int),
        decreases v@.len() - i,
    {
        push_item(&mut items, str_json(v[i].as_str()));
        i = i + 1;
        assert(json_views(items@) =~= str_items(views(v@)).take(i as int));
    }
    assert(str_items(views(v@)).take(v@.len() as int) =~= str_items(views(v@)));
    array(items)
}

fn strs_json(v: &[&str]) -> (r: Json)
    ensures
        json_view(r) == JsonValue::Array(str_items(str_views(v@))),
{
    let mut items = empty_items();
    let mut i: usize = 0;
    while i < v.len()
        invariant
            i <= v@.len(),
            json_views(items@) == str_items(str_views(v@)).take(i as int),
        decreases v@.len() - i,
    {
        push_item(&mut items, str_json(v[i]));
        i = i + 1;
        assert(json_views(items@) =~= str_items(str_views(v@)).take(i as int));
    }
    assert(str_items(str_views(v@)).take(v@.len() as int) =~= str_items(str_views(v@)));
    array(items)
}

fn location_json_exec(f: &Finding) -> (r: Json)
    ensures
        json_view(r) == location_json(f@.location),
{
    let l = &f.location;
    let mut m = empty_members();
    push_member(&mut m, "file", Json::Str(crate::discovery::to_slash(l.file.as_str())));
    push_member(&mut m, "line", Json::Num(l.line as u64));
    match l.column {
        Some(c) => push_member(&mut m, "column", Json::Num(c as u64)),
        None => {},
    }
    match l.end_line {
        Some(c) => push_member(&mut m, "end_line", Json::Num(c as u64)),
        None => {},
    }
    match l.end_column {
        Some(c) => push_member(&mut m, "end_column", Json::Num(c as u64)),
        None => {},
    }
    assert(member_views(m@) =~= location_json(f@.location)->Object_0);
    object(m)
}

fn finding_json_exec(f: &Finding) -> (r: Json)
    ensures
        json_view(r) == finding_json(f@),
{
    let mut m = empty_members();
    push_member(&mut m, "rule_id", str_json(f.rule_id.as_str()));
    push_member(&mut m, "title", str_json(f.title.as_str()));
    push_member(&mut m, "description", str_json(f.description.as_str()));
    push_member(&mut m, "severity", str_json(f.severity.as_str()));
    push_member(&mut m, "confidence", str_json(f.confidence.as_str()));
    push_member(&mut m, "category", str_json(f.category.as_str()));
    push_member(&mut m, "location", location_json_exec(f));
    push_member(&mut m, "evidence", str_json(f.evidence.as_str()));
    push_member(&mut m, "remediation", str_json(f.remediation.as_str()));
    push_member(&mut m, "references", strings_json(&f.references));
    push_member(&mut m, "fingerprint", str_json(f.fingerprint.as_str()));
    assert(member_views(m@) =~= finding_json(f@)->Object_0);
    object(m)
}

fn diagnostic_json_exec(d: &Diagnostic) -> (r: Json)
    ensures
        json_view(r) == diagnostic_json(d@),
{
    let level = match d.level {
        DiagnosticLevel::Info => "info",
        DiagnosticLevel::Warning => "warning",
        DiagnosticLevel::Error => "error",
    };
    let mut m = empty_members();
    push_member(&mut m, "level", str_json(level));
    push_member(&mut m, "message", str_json(d.message.as_str()));
    push_member(
        &mut m,
        "path",
        match &d.path {
            Some(p) => str_json(p.as_str()),
            None => Json::Null,
        },
    );
    push_member(
        &mut m,
        "line",
        match d.line {
            Some(n) => Json::Num(n as u64),
            None => Json::Null,
        },
    );
    assert(member_views(m@) =~= diagnostic_json(d@)->Object_0);
    object(m)
}

/// The JSON report of a scan, as a document.
pub fn report_document(outcome: &ScanOutcome) -> (r: Json)
    ensures
        json_view(r) == report_spec(outcome),
{
    let ghost rv = report_spec(outcome)->Object_0;
    let mut tool = empty_members();
    push_member(&mut tool, "name", str_json(crate::TOOL_NAME));
    push_member(&mut tool, "version", str_json(crate::VERSION));
    push_member(&mut tool, "information_uri", str_json(TOOL_URL));
    assert(member_views(tool@) =~= rv[0].1->Object_0);
    let mut project = empty_members();
    push_member(&mut project, "root", str_json(outcome.project.root.as_str()));
    push_member(&mut project, "kind", str_json(outcome.project.kind.as_str()));
    push_member(&mut project, "source_files", Json::Num(outcome.project.source_files as u64));
    push_member(&mut project, "soroban_sdk_versions", strings_json(&outcome.project.soroban.sdk_versions));
    assert(member_views(project@) =~= rv[1].1->Object_0);
    let mut stats = empty_members();
    push_member(&mut stats, "files_analyzed", Json::Num(outcome.stats.files_analyzed as u64));
    push_member(&mut stats, "rules_run", Json::Num(outcome.stats.rules_run as u64));
    push_member(&mut stats, "rules_skipped", Json::Num(outcome.stats.rules_skipped as u64));
    push_member(&mut stats, "findings_raw", Json::Num(outcome.stats.findings_raw as u64));
    push_member(&mut stats, "findings_rejected", Json::Num(outcome.stats.findings_rejected as u64));
    assert(member_views(stats@) =~= rv[2].1->Object_0);
    let ghost fv = finding_views(outcome.findings@);
    let mut findings = empty_items();
    let mut i: usize = 0;
    while i < outcome.findings.len()
        invariant
            i <= outcome.findings@.len(),
            fv == finding_views(outcome.findings@),
            json_views(findings@) == fv.take(i as int).map_values(|f: FindingView| finding_json(f)),
        decreases outcome.findings@.len() - i,
    {
        push_item(&mut findings, finding_json_exec(&outcome.findings[i]));
        i = i + 1;
        assert(json_views(findings@) =~= fv.take(i as int).map_values(|f: FindingView| finding_json(f)));
    }
    assert(fv.take(fv.len() as int) =~= fv);
    let ghost dv = diagnostic_views(outcome.diagnostics@);
    let mut diags = empty_items();
    let mut k: usize = 0;
    while k < outcome.diagnostics.len()
        invariant
            k <= outcome.diagnostics@.len(),
            dv == diagnostic_views(outcome.diagnostics@),
            json_views(diags@) == dv.take(k as int).map_values(|d: DiagnosticView| diagnostic_json(d)),
        decreases outcome.diagnostics@.len() - k,
    {
        push_item(&mut diags, diagnostic_json_exec(&outcome.diagnostics[k]));
        k = k + 1;
        assert(json_views(diags@) =~= dv.take(k as int).map_values(|d: DiagnosticView| diagnostic_json(d)));
    }
    assert(dv.take(dv.len() as int) =~= dv);
    let mut doc = empty_members();
    push_member(&mut doc, "tool", object(tool));
    push_member(&mut doc, "project", object(project));
    push_member(&mut doc, "stats", object(stats));
    push_member(&mut doc, "findings", array(findings));
    push_member(&mut doc, "diagnostics", array(diags));
    assert(member_views(doc@) =~= rv);
    object(doc)
}

/// Renders the JSON report of a scan.
pub fn render_json(outcome: &ScanOutcome) -> (r: String)
    ensures
        r@ == json_text(report_spec(outcome)),
{
    json_pretty(&report_document(outcome))
}

/// The JSON entry of one rule in the rule list.
fn rule_entry_exec(m: &RuleMetadata) -> (r: Json)
    ensures
        json_view(r) == rule_entry_json(*m),
{
    let mut o = empty_members();
    push_member(&mut o, "category", str_json(m.category.as_str()));
    push_member(&mut o, "confidence", str_json(m.default_confidence.as_str()));
    push_member(&mut o, "id", str_json(m.id));
    push_member(&mut o, "severity", str_json(m.default_severity.as_str()));
    push_member(&mut o, "title", str_json(m.title));
    assert(member_views(o@) =~= rule_entry_json(*m)->Object_0);
    object(o)
}

/// The rule list: a JSON array of entries for the JSON format, else a table.
pub fn render_rule_list(metas: &[RuleMetadata], format: OutputFormat) -> (r: String)
    ensures
        format == OutputFormat::Json ==> r@ == json_text(
            JsonValue::Array(metas@.map_values(|m: RuleMetadata| rule_entry_json(m))),
        ),
        format != OutputFormat::Json ==> r@ == rule_list_header() + rule_lines(metas@),
{
    if format != OutputFormat::Json {
        return render_rule_list_text(metas);
    }
    let mut items = empty_items();
    let mut i: usize = 0;
    while i < metas.len()
        invariant
            i <= metas@.len(),
            json_views(items@) == metas@.take(i as int).map_values(|m: RuleMetadata| rule_entry_json(m)),
        decreases metas@.len() - i,
    {
        push_item(&mut items, rule_entry_exec(&metas[i]));
        i = i + 1;
        assert(json_views(items@) =~= metas@.take(i as int).map_values(|m: RuleMetadata| rule_entry_json(m)));
    }
    assert(metas@.take(metas@.len() as int) =~= metas@);
    json_pretty(&array(items))
}

/// The documentation of one rule: a JSON object for the JSON format, else
/// Markdown or text.
pub fn render_rule_detail(meta: &RuleMetadata, format: OutputFormat) -> (r: String)
    ensures
        format == OutputFormat::Json ==> r@ == json_text(rule_detail_json(*meta)),
        format != OutputFormat::Json ==> r@ == rule_detail_spec(*meta, format),
{
    if format != OutputFormat::Json {
        return render_rule_detail_text(meta, format);
    }
    let mut o = empty_members();
    push_member(&mut o, "category", str_json(meta.category.as_str()));
    push_member(&mut o, "confidence", str_json(meta.default_confidence.as_str()));
    push_member(&mut o, "description", str_json(meta.description));
    push_member(&mut o, "id", str_json(meta.id));
    push_member(&mut o, "references", strs_json(meta.references));
    push_member(&mut o, "remediation", str_json(meta.remediation));
    push_member(&mut o, "severity", str_json(meta.default_severity.as_str()));
    push_member(&mut o, "title", str_json(meta.title));
    assert(member_views(o@) =~= rule_detail_json(*meta)->Object_0);
    json_pretty(&object(o))
}

/// Renders a scan report in the requested format.
pub fn render<R: Rule>(outcome: &ScanOutcome, registry: &RuleRegistry<R>, format: OutputFormat) -> (r: String)
    requires
        registry.wf(),
    ensures
        format == OutputFormat::Terminal ==> r@ == terminal_spec(outcome),
        format == OutputFormat::Json ==> r@ == json_text(report_spec(outcome)),
        format == OutputFormat::Sarif ==> r@ == json_text(
            sarif_spec(finding_views(outcome.findings@), crate::registry::sort_by_id(registry.metadata_spec())),
        ),
        format == OutputFormat::Markdown ==> r@ == markdown_spec(outcome),
{
    match format {
        OutputFormat::Terminal => render_terminal(outcome),
        OutputFormat::Json => render_json(outcome),
        OutputFormat::Sarif => render_sarif(outcome, registry),
        OutputFormat::Markdown => render_markdown(outcome),
    }
}

} // verus!
