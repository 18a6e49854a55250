//! The SARIF 2.1.0 report, as a JSON document.
use vstd::prelude::*;

use crate::category::category_name;
use crate::confidence::confidence_name;
use crate::engine::ScanOutcome;
use crate::finding::{slash_path, Finding, FindingView};
use crate::json::{
    array, empty_items, empty_members, json_pretty, json_text, json_view, json_views, member1, member_views, object, object1,
    push_item, push_member, str_json, Json, JsonValue,
};
use crate::registry::{sort_by_id, RuleRegistry};
use crate::report::{sarif_level_spec, sarif_results, sarif_rules, SarifResult, SarifRule, SARIF_SCHEMA, TOOL_URL};
use crate::rule::{Rule, RuleMetadata};
use crate::rules::checks::finding_views;
use crate::severity::severity_name;

verus! {

/// The help URI of a rule: its first reference, or the tool's homepage.
pub open spec fn help_uri(m: RuleMetadata) -> Seq<char> {
    if m.references@.len() > 0 {
        m.references@[0]@
    } else {
        "https://github.com/AyinkxLab/soroban-security-scanner"@
    }
}

/// The SARIF rule descriptor of a rule.
pub open spec fn sarif_rule_json(m: RuleMetadata) -> JsonValue {
    JsonValue::Object(
        seq![
            ("defaultConfiguration"@, member1("level"@, JsonValue::Str(sarif_level_spec(m.default_severity)))),
            ("fullDescription"@, member1("text"@, JsonValue::Str(m.description@))),
            ("helpUri"@, JsonValue::Str(help_uri(m))),
            ("id"@, JsonValue::Str(m.id@)),
            ("name"@, JsonValue::Str(m.title@)),
            (
                "properties"@,
                JsonValue::Object(
                    seq![
                        ("category"@, JsonValue::Str(category_name(m.category))),
                        ("confidence"@, JsonValue::Str(confidence_name(m.default_confidence))),
                        ("severity"@, JsonValue::Str(severity_name(m.default_severity))),
                    ],
                ),
            ),
            ("shortDescription"@, member1("text"@, JsonValue::Str(m.title@))),
        ],
    )
}

/// A member for an optional number: present only when the number is.
pub open spec fn opt_num_member(key: Seq<char>, o: Option<usize>) -> Seq<(Seq<char>, JsonValue)> {
    match o {
        Some(n) => seq![(key, JsonValue::Num(n as nat))],
        None => Seq::empty(),
    }
}

/// The SARIF region of a finding's location.
pub open spec fn region_json(f: FindingView) -> JsonValue {
    JsonValue::Object(
        opt_num_member("endLine"@, f.location.end_line) + opt_num_member("startColumn"@, f.location.column) + seq![
            ("startLine"@, JsonValue::Num(f.location.line as nat)),
        ],
    )
}

/// The SARIF result of a finding.
pub open spec fn sarif_result_json(f: FindingView) -> JsonValue {
    JsonValue::Object(
        seq![
            ("level"@, JsonValue::Str(sarif_level_spec(f.severity))),
            (
                "locations"@,
                JsonValue::Array(
                    seq![
                        member1(
                            "physicalLocation"@,
                            JsonValue::Object(
                                seq![
                                    ("artifactLocation"@, member1("uri"@, JsonValue::Str(slash_path(f.location.file)))),
                                    ("region"@, region_json(f)),
                                ],
                            ),
                        ),
                    ],
                ),
            ),
            ("message"@, member1("text"@, JsonValue::Str(f.title + " — "@ + f.evidence))),
            ("partialFingerprints"@, member1("sorobanScanFingerprint"@, JsonValue::Str(f.fingerprint))),
            (
                "properties"@,
                JsonValue::Object(
                    seq![
                        ("category"@, JsonValue::Str(category_name(f.category))),
                        ("confidence"@, JsonValue::Str(confidence_name(f.confidence))),
                        ("remediation"@, JsonValue::Str(f.remediation)),
                        ("severity"@, JsonValue::Str(severity_name(f.severity))),
                    ],
                ),
            ),
            ("ruleId"@, JsonValue::Str(f.rule_id)),
        ],
    )
}

/// The SARIF 2.1.0 document of a scan's findings and the rules' metadata.
pub open spec fn sarif_spec(fs: Seq<FindingView>, ms: Seq<RuleMetadata>) -> JsonValue {
    JsonValue::Object(
        seq![
            ("$schema"@, JsonValue::Str("https://json.schemastore.org/sarif-2.1.0.json"@)),
            (
                "runs"@,
                JsonValue::Array(
                    seq![
                        JsonValue::Object(
                            seq![
                                ("results"@, JsonValue::Array(fs.map_values(|f: FindingView| sarif_result_json(f)))),
                                (
                                    "tool"@,
                                    member1(
                                        "driver"@,
                                        JsonValue::Object(
                                            seq![
                                                (
                                                    "informationUri"@,
                                                    JsonValue::Str("https://github.com/AyinkxLab/soroban-security-scanner"@),
                                                ),
                                                ("name"@, JsonValue::Str(crate::tool_name_spec())),
                                                ("rules"@, JsonValue::Array(ms.map_values(|m: RuleMetadata| sarif_rule_json(m)))),
                                                ("version"@, JsonValue::Str(crate::version_spec())),
                                            ],
                                        ),
                                    ),
                                ),
                            ],
                        ),
                    ],
                ),
            ),
            ("version"@, JsonValue::Str("2.1.0"@)),
        ],
    )
}

fn rule_json(r: &SarifRule, Ghost(m): Ghost<RuleMetadata>) -> (j: Json)
    requires
        crate::report::sarif_rule_of(*r, m),
    ensures
        json_view(j) == sarif_rule_json(m),
{
    let mut props = empty_members();
    push_member(&mut props, "category", str_json(r.category.as_str()));
    push_member(&mut props, "confidence", str_json(r.confidence.as_str()));
    push_member(&mut props, "severity", str_json(r.severity.as_str()));
    let mut o = empty_members();
    push_member(&mut o, "defaultConfiguration", object1("level", str_json(r.level.as_str())));
    push_member(&mut o, "fullDescription", object1("text", str_json(r.full_description.as_str())));
    push_member(&mut o, "helpUri", str_json(r.help_uri.as_str()));
    push_member(&mut o, "id", str_json(r.id.as_str()));
    push_member(&mut o, "name", str_json(r.name.as_str()));
    assert(member_views(props@) =~= sarif_rule_json(m)->Object_0[5].1->Object_0);
    let p = object(props);
    push_member(&mut o, "properties", p);
    push_member(&mut o, "shortDescription", object1("text", str_json(r.name.as_str())));
    assert(member_views(o@) =~= sarif_rule_json(m)->Object_0);
    object(o)
}

fn result_json(r: &SarifResult, Ghost(f): Ghost<FindingView>) -> (j: Json)
    requires
        crate::report::sarif_result_of(*r, f),
    ensures
        json_view(j) == sarif_result_json(f),
{
    let ghost sv = sarif_result_json(f)->Object_0;
    let mut region = empty_members();
    match r.end_line {
        Some(l) => push_member(&mut region, "endLine", Json::Num(l as u64)),
        None => {},
    }
    match r.start_column {
        Some(c) => push_member(&mut region, "startColumn", Json::Num(c as u64)),
        None => {},
    }
    push_member(&mut region, "startLine", Json::Num(r.start_line as u64));
    assert(member_views(region@) =~= region_json(f)->Object_0);
    let mut phys = empty_members();
    push_member(&mut phys, "artifactLocation", object1("uri", str_json(r.uri.as_str())));
    push_member(&mut phys, "region", object(region));
    assert(member_views(phys@) =~= sv[1].1->Array_0[0]->Object_0[0].1->Object_0);
    let mut locs = empty_items();
    push_item(&mut locs, object1("physicalLocation", object(phys)));
    assert(json_views(locs@) =~= sv[1].1->Array_0);
    let mut props = empty_members();
    push_member(&mut props, "category", str_json(r.category.as_str()));
    push_member(&mut props, "confidence", str_json(r.confidence.as_str()));
    push_member(&mut props, "remediation", str_json(r.remediation.as_str()));
    push_member(&mut props, "severity", str_json(r.severity.as_str()));
    assert(member_views(props@) =~= sv[4].1->Object_0);
    let mut o = empty_members();
    push_member(&mut o, "level", str_json(r.level.as_str()));
    let l = array(locs);
    push_member(&mut o, "locations", l);
    push_member(&mut o, "message", object1("text", str_json(r.message.as_str())));
    push_member(&mut o, "partialFingerprints", object1("sorobanScanFingerprint", str_json(r.fingerprint.as_str())));
    push_member(&mut o, "properties", object(props));
    push_member(&mut o, "ruleId", str_json(r.rule_id.as_str()));
    assert(member_views(o@) =~= sv);
    object(o)
}

/// The SARIF 2.1.0 document of findings and the metadata of the rules that
/// produced them.
pub fn sarif_document(findings: &[Finding], metas: &[RuleMetadata]) -> (r: Json)
    ensures
        json_view(r) == sarif_spec(finding_views(findings@), metas@),
{
    let rules = sarif_rules(metas);
    let mut rule_items = empty_items();
    let mut i: usize = 0;
    while i < rules.len()
        invariant
            i <= rules@.len(),
            rules@.len() == metas@.len(),
            forall|k: int| 0 <= k < rules@.len() ==> crate::report::sarif_rule_of(#[trigger] rules@[k], metas@[k]),
            json_views(rule_items@) == metas@.take(i as int).map_values(|m: RuleMetadata| sarif_rule_json(m)),
        decreases rules@.len() - i,
    {
        let j = rule_json(&rules[i], Ghost(metas@[i as int]));
        push_item(&mut rule_items, j);
        i = i + 1;
        assert(metas@.take(i as int).map_values(|m: RuleMetadata| sarif_rule_json(m)) =~= metas@.take(i - 1).map_values(
            |m: RuleMetadata| sarif_rule_json(m),
        ).push(sarif_rule_json(metas@[i - 1])));
    }
    assert(metas@.take(metas@.len() as int) =~= metas@);
    let results = sarif_results(findings);
    let ghost fv = finding_views(findings@);
    let mut result_items = empty_items();
    let mut k: usize = 0;
    while k < results.len()
        invariant
            k <= results@.len(),
            results@.len() == findings@.len(),
            fv == finding_views(findings@),
            forall|q: int| 0 <= q < results@.len() ==> crate::report::sarif_result_of(#[trigger] results@[q], findings@[q]@),
            json_views(result_items@) == fv.take(k as int).map_values(|f: FindingView| sarif_result_json(f)),
        decreases results@.len() - k,
    {
        let j = result_json(&results[k], Ghost(findings@[k as int]@));
        push_item(&mut result_items, j);
        k = k + 1;
        assert(fv.take(k as int).map_values(|f: FindingView| sarif_result_json(f)) =~= fv.take(k - 1).map_values(
            |f: FindingView| sarif_result_json(f),
        ).push(sarif_result_json(fv[k - 1])));
    }
    assert(fv.take(fv.len() as int) =~= fv);
    let ghost sv = sarif_spec(fv, metas@);
    let mut driver = empty_members();
    push_member(&mut driver, "informationUri", str_json(TOOL_URL));
    push_member(&mut driver, "name", str_json(crate::TOOL_NAME));
    let ra = array(rule_items);
    push_member(&mut driver, "rules", ra);
    push_member(&mut driver, "version", str_json(crate::VERSION));
    let ghost run_v = sv->Object_0[1].1->Array_0[0];
    assert(member_views(driver@) =~= run_v->Object_0[1].1->Object_0[0].1->Object_0);
    let run_tool = object1("driver", object(driver));
    let mut run = empty_members();
    push_member(&mut run, "results", array(result_items));
    push_member(&mut run, "tool", run_tool);
    assert(member_views(run@) =~= run_v->Object_0);
    let mut runs = empty_items();
    push_item(&mut runs, object(run));
    assert(json_views(runs@) =~= sv->Object_0[1].1->Array_0);
    let mut doc = empty_members();
    push_member(&mut doc, "$schema", str_json(SARIF_SCHEMA));
    push_member(&mut doc, "runs", array(runs));
    push_member(&mut doc, "version", str_json("2.1.0"));
    assert(member_views(doc@) =~= sv->Object_0);
    object(doc)
}

/// Renders the SARIF 2.1.0 report of a scan.
pub fn render_sarif<R: Rule>(outcome: &ScanOutcome, registry: &RuleRegistry<R>) -> (r: String)
    requires
        registry.wf(),
    ensures
        r@ == json_text(sarif_spec(finding_views(outcome.findings@), sort_by_id(registry.metadata_spec()))),
{
    let metas = registry.metadata_sorted();
    let doc = sarif_document(outcome.findings.as_slice(), metas.as_slice());
    json_pretty(&doc)
}

} // verus!
