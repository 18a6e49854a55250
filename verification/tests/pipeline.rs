use soroban_scan_core::ai::{assistant, AiConfig, AiError, Assistant, RuleGuidance, OFFLINE_LABEL};
use soroban_scan_core::baseline::{compare, Baseline, BASELINE_VERSION};
use soroban_scan_core::category::Category;
use soroban_scan_core::confidence::Confidence;
use soroban_scan_core::config::{RulesConfig, ScanConfig};
use soroban_scan_core::context::AnalysisContext;
use soroban_scan_core::engine::{self, scan, ScanOutcome};
use soroban_scan_core::error::ScanError;
use soroban_scan_core::finding::{Finding, SourceLocation};
use soroban_scan_core::manifest::parse_manifest;
use soroban_scan_core::model::{DepKind, DepSource, ProjectKind};
use soroban_scan_core::project::{assemble_project, read_manifests, LoadedProject, ManifestInput};
use soroban_scan_core::registry::RuleRegistry;
use soroban_scan_core::report::{
    render_markdown, render_terminal, sarif_level, severity_counts, summary_line, OutputFormat,
};
use soroban_scan_core::rule::{Rule, RuleMetadata};
use soroban_scan_core::severity::Severity;
use soroban_scan_core::source::SourceInput;

// ---------------------------------------------------------------------------
// Shared fixtures.
// ---------------------------------------------------------------------------

const POSITIVE_SS001: &str = r#"#![no_std]
use soroban_sdk::{contract, contractimpl, Env, Symbol};

#[contract]
pub struct Counter;

#[contractimpl]
impl Counter {
    pub fn set_value(env: Env, v: u32) {
        env.storage().persistent().set(&Symbol::new(&env, "v"), &v);
    }
}
"#;

fn ai_meta() -> RuleMetadata {
    RuleMetadata::new(
        "SS-001",
        "Title",
        "description of the problem with enough characters",
        Category::Authorization,
        Severity::High,
        Confidence::Medium,
        "call require_auth",
    )
    .with_references(&["https://example.com"])
}

fn ai_finding() -> Finding {
    Finding::new(&ai_meta(), SourceLocation::new("src/lib.rs", 5), "evidence here")
}

fn baseline_meta() -> RuleMetadata {
    RuleMetadata::new(
        "SS-001",
        "Test",
        "test description long enough for validation purposes",
        Category::Authorization,
        Severity::High,
        Confidence::Medium,
        "fix",
    )
}

fn baseline_finding(file: &str, line: usize, evidence: &str) -> Finding {
    Finding::new(&baseline_meta(), SourceLocation::new(file, line), evidence)
}

fn sample_outcome() -> ScanOutcome {
    let registry = RuleRegistry::with_default_rules();
    engine::scan_source_str(POSITIVE_SS001, "positive.rs", &ScanConfig::default(), &registry)
}

/// Loads a project from in-memory manifests and sources, as the file-system
/// loader does after reading them.
fn load_in_memory(
    root: &str,
    manifests: &[(&str, &str)],
    sources: &[(&str, &str)],
) -> Result<LoadedProject, ScanError> {
    let inputs: Vec<ManifestInput> = manifests
        .iter()
        .map(|(p, c)| ManifestInput::Text { path: p.to_string(), content: c.to_string() })
        .collect();
    let (parsed, diagnostics) = read_manifests(root, inputs)?;
    let source_inputs: Vec<SourceInput> = sources
        .iter()
        .map(|(p, c)| SourceInput::Text { path: p.to_string(), content: c.to_string() })
        .collect();
    Ok(assemble_project(root, parsed, diagnostics, &source_inputs))
}

const SDK_MANIFEST: &str =
    "[package]\nname = \"c\"\nversion = \"0.1.0\"\n[dependencies]\nsoroban-sdk = \"21.0.0\"\n";

// ---------------------------------------------------------------------------
// Assistance layer.
// ---------------------------------------------------------------------------

#[test]
fn disabled_by_default_returns_offline_guidance() {
    let config = AiConfig::default();
    assert!(!config.enabled);
    assert!(assistant(&config).is_ok());
}

#[test]
fn enabling_without_provider_fails_closed() {
    let config = AiConfig { enabled: true, provider: None, model: None };
    assert_eq!(assistant(&config).unwrap_err(), AiError::NotConfigured);
}

#[test]
fn enabling_with_unknown_provider_fails_closed() {
    let config = AiConfig {
        enabled: true,
        provider: Some("no-such-provider".into()),
        model: None,
    };
    assert!(matches!(assistant(&config), Err(AiError::ProviderUnavailable(_))));
}

#[test]
fn guidance_is_labeled_and_uses_existing_evidence() {
    let explanation = RuleGuidance.explain_finding(&ai_finding(), Some(&ai_meta()));
    assert!(!explanation.ai_generated);
    assert_eq!(explanation.label, OFFLINE_LABEL);
    assert!(explanation.text.contains("evidence here"));
    assert!(explanation.text.contains("src/lib.rs:5"));
    assert!(explanation.text.contains("call require_auth"));
}

#[test]
fn summary_reports_existing_findings_only() {
    let findings = vec![ai_finding()];
    let explanation = RuleGuidance.summarize(&findings);
    assert!(explanation.text.contains("1 deterministic findings"));
    assert!(explanation.text.contains("critical 0, high 1"));
}

#[test]
fn unknown_provider_error_names_the_provider() {
    let config = AiConfig { enabled: true, provider: Some("acme".into()), model: None };
    match assistant(&config) {
        Err(AiError::ProviderUnavailable(p)) => assert_eq!(p, "acme"),
        _ => panic!("expected an unavailable provider"),
    }
    assert_eq!(RuleGuidance.name(), "rule-guidance");
}

#[test]
fn explanation_without_metadata_still_cites_the_location() {
    let explanation = RuleGuidance.explain_finding(&ai_finding(), None);
    assert!(explanation.text.contains("src/lib.rs:5"));
    assert!(explanation.text.contains("evidence here"));
    assert!(explanation.text.contains("call require_auth"));
    assert!(!explanation.text.contains("References:"));
    let with_meta = RuleGuidance.explain_finding(&ai_finding(), Some(&ai_meta()));
    assert!(with_meta.text.contains("- https://example.com"));
}

// ---------------------------------------------------------------------------
// Baselines.
// ---------------------------------------------------------------------------

#[test]
fn rejects_wrong_version() {
    let baseline = Baseline {
        version: 99,
        tool: "soroban-scan".into(),
        tool_version: "0.1.0".into(),
        findings: Vec::new(),
    };
    match baseline.check_version() {
        Err(ScanError::Baseline(m)) => {
            assert_eq!(m, "unsupported baseline version 99 (expected 1)")
        }
        _ => panic!("expected a baseline error"),
    }
    let current = Baseline {
        version: BASELINE_VERSION,
        tool: "soroban-scan".into(),
        tool_version: "0.1.0".into(),
        findings: Vec::new(),
    };
    assert!(current.check_version().is_ok());
}

#[test]
fn comparison_identifies_new_and_resolved() {
    let old = baseline_finding("src/lib.rs", 10, "keep");
    let baseline = Baseline::from_findings(std::slice::from_ref(&old));

    let kept = baseline_finding("src/lib.rs", 999, "keep"); // line shift does not matter
    let fresh = baseline_finding("src/lib.rs", 20, "brand new");
    let findings = vec![kept, fresh];

    let comparison = compare(&findings, &baseline);
    assert_eq!(comparison.new_count(), 1);
    assert_eq!(comparison.existing_count(), 1);
    assert_eq!(comparison.resolved_count(), 0);
}

#[test]
fn resolved_findings_are_reported() {
    let baseline = Baseline::from_findings(&[baseline_finding("src/lib.rs", 10, "gone")]);
    let comparison = compare(&[], &baseline);
    assert_eq!(comparison.resolved_count(), 1);
    assert_eq!(comparison.new_count(), 0);
}

#[test]
fn baseline_output_is_deterministic() {
    let findings = vec![baseline_finding("b.rs", 1, "x"), baseline_finding("a.rs", 2, "y")];
    let first = Baseline::from_findings(&findings);
    let second = Baseline::from_findings(&findings);
    let fa: Vec<&str> = first.fingerprints();
    let fb: Vec<&str> = second.fingerprints();
    assert_eq!(fa, fb);
    assert_eq!(first.findings[0].file, second.findings[0].file);
    assert_eq!(first.version, 1);
    assert_eq!(first.tool, "soroban-scan");
}

#[test]
fn baseline_is_sorted_and_deduplicated_by_fingerprint() {
    let a = baseline_finding("a.rs", 1, "same");
    let b = baseline_finding("a.rs", 50, "same");
    let c = baseline_finding("z.rs", 2, "other");
    let baseline = Baseline::from_findings(&[c, a, b]);
    assert_eq!(baseline.findings.len(), 2);
    assert!(baseline.findings[0].fingerprint < baseline.findings[1].fingerprint);
    let fps = baseline.fingerprints();
    assert_eq!(fps.len(), 2);
}

#[test]
fn a_scan_compared_with_its_own_baseline_has_nothing_new() {
    let findings = vec![
        baseline_finding("src/lib.rs", 1, "x"),
        baseline_finding("src/lib.rs", 2, "y"),
        baseline_finding("src/lib.rs", 3, "x"),
    ];
    let baseline = Baseline::from_findings(&findings);
    let comparison = compare(&findings, &baseline);
    assert_eq!(comparison.new_count(), 0);
    assert_eq!(comparison.existing_count(), 3);
    assert_eq!(comparison.resolved_count(), 0);
    for f in &findings {
        assert!(baseline.contains(f));
    }
}

// ---------------------------------------------------------------------------
// Manifests.
// ---------------------------------------------------------------------------

#[test]
fn parses_package_and_dependencies() {
    let toml = r#"
[package]
name = "demo"
version = "0.1.0"
edition = "2021"

[dependencies]
soroban-sdk = "21.0.0"
serde = { version = "1", features = ["derive"], optional = true }

[dev-dependencies]
pretty_assertions = "1"
"#;
    let m = parse_manifest("Cargo.toml", toml).unwrap();
    assert_eq!(m.package.as_ref().unwrap().name, "demo");
    assert_eq!(
        m.dependency("soroban-sdk").unwrap().version.as_deref(),
        Some("21.0.0")
    );
    assert!(m.dependency("serde").unwrap().optional);
    assert_eq!(m.dependency("pretty_assertions").unwrap().kind, DepKind::Dev);
}

#[test]
fn parses_workspace_and_members() {
    let toml = r#"
[workspace]
resolver = "2"
members = ["contracts/*", "sdk"]

[workspace.dependencies]
soroban-sdk = "21.0.0"
"#;
    let m = parse_manifest("Cargo.toml", toml).unwrap();
    let ws = m.workspace.as_ref().unwrap();
    assert_eq!(ws.resolver.as_deref(), Some("2"));
    assert_eq!(ws.members, vec!["contracts/*", "sdk"]);
    assert!(m.dependency("soroban-sdk").is_some());
    assert!(m.is_workspace_root());
}

#[test]
fn parses_path_and_git_sources() {
    let toml = r#"
[dependencies]
local = { path = "../local" }
remote = { git = "https://example.com/x.git" }
"#;
    let m = parse_manifest("Cargo.toml", toml).unwrap();
    assert!(matches!(m.dependency("local").unwrap().source, DepSource::Path { .. }));
    assert!(matches!(m.dependency("remote").unwrap().source, DepSource::Git { .. }));
}

#[test]
fn rejects_invalid_toml() {
    let err = parse_manifest("Cargo.toml", "this is not toml = =").unwrap_err();
    assert!(matches!(err, ScanError::Parse { .. }));
}

#[test]
fn manifest_dependencies_are_sorted_by_name() {
    let toml = "[dependencies]\nzeta = \"1\"\nalpha = \"2\"\n[build-dependencies]\nmid = \"3\"\n";
    let m = parse_manifest("Cargo.toml", toml).unwrap();
    let names: Vec<&str> = m.dependencies.iter().map(|d| d.name.as_str()).collect();
    assert_eq!(names, vec!["alpha", "mid", "zeta"]);
    assert_eq!(m.dependency("mid").unwrap().kind, DepKind::Build);
    assert!(m.package.is_none());
}

// ---------------------------------------------------------------------------
// Project loading and classification.
// ---------------------------------------------------------------------------

#[test]
fn classifies_soroban_project() {
    let loaded = load_in_memory(
        "/p",
        &[("/p/Cargo.toml", SDK_MANIFEST)],
        &[("/p/src/lib.rs", "fn f() {}")],
    )
    .unwrap();
    assert_eq!(loaded.project.kind, ProjectKind::LikelySoroban);
    assert!(loaded.project.soroban.has_sdk_dependency);
    assert_eq!(loaded.project.source_files, 1);
}

#[test]
fn confirms_soroban_from_contract_macro() {
    let loaded = load_in_memory(
        "/p",
        &[("/p/Cargo.toml", SDK_MANIFEST)],
        &[("/p/src/lib.rs", "#[contractimpl]\nimpl C { pub fn f() {} }\n")],
    )
    .unwrap();
    assert_eq!(loaded.project.kind, ProjectKind::ConfirmedSoroban);
    assert!(loaded.project.soroban.contract_macros_found);
    assert_eq!(loaded.sources.len(), 1);
}

#[test]
fn classifies_generic_rust_project() {
    let loaded = load_in_memory(
        "/p",
        &[("/p/Cargo.toml", "[package]\nname = \"g\"\nversion = \"0.1.0\"\n[dependencies]\nserde = \"1\"\n")],
        &[],
    )
    .unwrap();
    assert_eq!(loaded.project.kind, ProjectKind::GenericRust);
}

#[test]
fn plain_project_has_no_soroban_evidence() {
    let loaded = load_in_memory(
        "/p",
        &[("/p/Cargo.toml", "[package]\nname = \"g\"\nversion = \"0.1.0\"\n[dependencies]\nserde = \"1\"\n")],
        &[("/p/src/lib.rs", "pub fn f() -> u32 { 1 }\n")],
    )
    .unwrap();
    assert!(loaded.project.soroban.evidence.is_empty());
    assert!(loaded.project.soroban.sdk_versions.is_empty());
    assert!(!loaded.project.soroban.has_sdk_dependency);
    assert_eq!(loaded.project.kind, ProjectKind::GenericRust);
}

#[test]
fn loaded_project_collects_manifest_and_source_evidence() {
    let loaded = load_in_memory(
        "/p",
        &[("/p/Cargo.toml", SDK_MANIFEST)],
        &[("/p/src/lib.rs", "#[contract]\npub struct C;\n")],
    )
    .unwrap();
    assert_eq!(loaded.project.soroban.sdk_versions, vec!["21.0.0"]);
    assert_eq!(
        loaded.project.soroban.evidence,
        vec![
            "contract definition at /p/src/lib.rs:1".to_string(),
            "dependency `soroban-sdk` declared in /p/Cargo.toml".to_string(),
        ]
    );
    assert_eq!(loaded.project.kind, ProjectKind::ConfirmedSoroban);
}

#[test]
fn invalid_root_manifest_is_fatal() {
    assert!(load_in_memory("/p", &[("/p/Cargo.toml", "not = = toml")], &[]).is_err());
}

#[test]
fn invalid_nested_manifest_is_diagnostic() {
    let loaded = load_in_memory(
        "/p",
        &[
            ("/p/Cargo.toml", "[package]\nname = \"root\"\nversion = \"0.1.0\"\n"),
            ("/p/nested/Cargo.toml", "not = = toml"),
        ],
        &[],
    )
    .unwrap();
    assert_eq!(loaded.project.manifests.len(), 1);
    assert_eq!(loaded.project.diagnostics.len(), 1);
}

#[test]
fn unparseable_source_is_diagnostic() {
    let loaded = load_in_memory(
        "/p",
        &[("/p/Cargo.toml", "[package]\nname = \"b\"\nversion = \"0.1.0\"\n")],
        &[("/p/src/lib.rs", "fn broken( {")],
    )
    .unwrap();
    assert_eq!(loaded.sources.len(), 1);
    assert!(loaded.sources[0].parse_error.is_some());
    assert!(loaded
        .project
        .diagnostics
        .iter()
        .any(|d| d.message.contains("failed to parse")));
}

#[test]
fn generic_rust_is_not_classified_as_soroban() {
    let loaded = load_in_memory(
        "/g",
        &[("/g/Cargo.toml", "[package]\nname = \"generic\"\nversion = \"0.1.0\"\n")],
        &[("/g/src/main.rs", "fn main() { println!(\"hi\"); }\n")],
    )
    .unwrap();
    assert_eq!(loaded.project.kind, ProjectKind::GenericRust);
    assert!(!loaded.project.soroban.has_sdk_dependency);
    assert_eq!(loaded.project.source_files, 1);
}

#[test]
fn soroban_dependency_without_contract_is_likely() {
    let loaded = load_in_memory(
        "/l",
        &[("/l/Cargo.toml", SDK_MANIFEST)],
        &[("/l/src/lib.rs", "pub fn helper() -> u32 { 1 }\n")],
    )
    .unwrap();
    assert_eq!(loaded.project.kind, ProjectKind::LikelySoroban);
    assert!(loaded.project.soroban.has_sdk_dependency);
    assert!(!loaded.project.soroban.contract_macros_found);
}

#[test]
fn contract_definition_confirms_soroban_and_discovers_items() {
    let loaded = load_in_memory(
        "/c",
        &[("/c/Cargo.toml", SDK_MANIFEST)],
        &[
            (
                "/c/src/lib.rs",
                "#[contract]\npub struct Hello;\n#[contractimpl]\nimpl Hello {\n    pub fn hello(env: Env) -> u32 { 1 }\n    fn private_helper() {}\n}\n",
            ),
            ("/c/src/util.rs", "pub fn util() {}\n"),
        ],
    )
    .unwrap();
    assert_eq!(loaded.project.kind, ProjectKind::ConfirmedSoroban);
    assert!(loaded.project.soroban.contract_macros_found);
    assert_eq!(loaded.sources.len(), 2);
    let lib = loaded.sources.iter().find(|s| s.path.ends_with("lib.rs")).unwrap();
    let entry_points = lib.contract_entry_points();
    assert_eq!(entry_points.len(), 1);
    assert_eq!(entry_points[0].name, "hello");
}

// ---------------------------------------------------------------------------
// The scan pipeline.
// ---------------------------------------------------------------------------

struct OneFindingRule {
    meta: RuleMetadata,
}

impl OneFindingRule {
    fn new(severity: Severity) -> Self {
        OneFindingRule {
            meta: RuleMetadata::new(
                "SS-001",
                "Test rule",
                "test description",
                Category::Authorization,
                severity,
                Confidence::Medium,
                "fix it",
            ),
        }
    }
}

impl Rule for OneFindingRule {
    fn enabled_by_default(&self) -> bool {
        true
    }
    fn metadata(&self) -> RuleMetadata {
        self.meta
    }
    fn analyze(&self, ctx: &AnalysisContext<'_>, out: &mut Vec<Finding>) {
        if let Some(source) = ctx.sources().first() {
            let loc = SourceLocation::new(&ctx.relative_path(&source.path), 1);
            out.push(Finding::new(&self.meta, loc, "fn a() {}"));
        }
    }
}

struct FabricatingRule {
    meta: RuleMetadata,
}

impl Rule for FabricatingRule {
    fn enabled_by_default(&self) -> bool {
        true
    }
    fn metadata(&self) -> RuleMetadata {
        self.meta
    }
    fn analyze(&self, _ctx: &AnalysisContext<'_>, out: &mut Vec<Finding>) {
        out.push(Finding::new(
            &self.meta,
            SourceLocation::new("../../etc/passwd", 1),
            "made up",
        ));
    }
}

fn fabricator() -> FabricatingRule {
    FabricatingRule {
        meta: RuleMetadata::new(
            "SS-002",
            "Fabricator",
            "bad",
            Category::Unsafe,
            Severity::High,
            Confidence::High,
            "n/a",
        ),
    }
}

fn engine_fixture() -> LoadedProject {
    load_in_memory(
        "/x",
        &[(
            "/x/Cargo.toml",
            "[package]\nname = \"x\"\nversion = \"0.1.0\"\n[dependencies]\nsoroban-sdk = \"21.0.0\"\n",
        )],
        &[("/x/src/lib.rs", "fn a() {}\nfn b() {}\n")],
    )
    .unwrap()
}

#[test]
fn runs_rules_and_emits_findings() {
    let loaded = engine_fixture();
    let mut registry = RuleRegistry::new();
    registry.register(OneFindingRule::new(Severity::High)).unwrap();
    let outcome = scan(&loaded, &registry, &ScanConfig::default());
    assert_eq!(outcome.findings.len(), 1);
    assert_eq!(outcome.stats.rules_run, 1);
    assert_eq!(outcome.findings[0].severity, Severity::High);
    assert_eq!(outcome.findings[0].location.file, "src/lib.rs");
}

#[test]
fn filters_below_min_severity() {
    let loaded = engine_fixture();
    let mut registry = RuleRegistry::new();
    registry.register(OneFindingRule::new(Severity::Low)).unwrap();
    let config = ScanConfig { min_severity: Severity::Medium, ..ScanConfig::default() };
    let outcome = scan(&loaded, &registry, &config);
    assert!(outcome.findings.is_empty());
}

#[test]
fn rejects_fabricated_locations() {
    let loaded = engine_fixture();
    let mut registry = RuleRegistry::new();
    registry.register(fabricator()).unwrap();
    let outcome = scan(&loaded, &registry, &ScanConfig::default());
    assert!(outcome.findings.is_empty());
    assert_eq!(outcome.stats.findings_rejected, 1);
    assert!(outcome.diagnostics.iter().any(|d| d.message.contains("unsafe location")));
}

#[test]
fn disabled_rules_are_skipped() {
    let loaded = engine_fixture();
    let mut registry = RuleRegistry::new();
    registry.register(OneFindingRule::new(Severity::High)).unwrap();
    let config = ScanConfig {
        rules: RulesConfig { disabled: vec!["SS-001".into()], ..RulesConfig::default() },
        ..ScanConfig::default()
    };
    let outcome = scan(&loaded, &registry, &config);
    assert!(outcome.findings.is_empty());
    assert_eq!(outcome.stats.rules_skipped, 1);
}

fn finding_summaries(outcome: &ScanOutcome) -> Vec<(String, String, usize, usize, String, String)> {
    outcome
        .findings
        .iter()
        .map(|f| {
            (
                f.rule_id.clone(),
                f.location.file.clone(),
                f.location.line,
                f.location.column.unwrap_or(0),
                f.evidence.clone(),
                f.fingerprint.clone(),
            )
        })
        .collect()
}

#[test]
fn scanning_is_deterministic() {
    let loaded = engine_fixture();
    let mut registry = RuleRegistry::new();
    registry.register(OneFindingRule::new(Severity::High)).unwrap();
    let a = scan(&loaded, &registry, &ScanConfig::default());
    let b = scan(&loaded, &registry, &ScanConfig::default());
    assert_eq!(finding_summaries(&a), finding_summaries(&b));
}

#[test]
fn severity_override_applies_before_filtering() {
    let loaded = engine_fixture();
    let mut registry = RuleRegistry::new();
    registry.register(OneFindingRule::new(Severity::Low)).unwrap();
    let config = ScanConfig {
        min_severity: Severity::Medium,
        rules: RulesConfig {
            severity_overrides: vec![("SS-001".into(), Severity::Critical)],
            ..RulesConfig::default()
        },
        ..ScanConfig::default()
    };
    let outcome = scan(&loaded, &registry, &config);
    assert_eq!(outcome.findings.len(), 1);
    assert_eq!(outcome.findings[0].severity, Severity::Critical);
}

// ---------------------------------------------------------------------------
// Reports.
// ---------------------------------------------------------------------------

#[test]
fn terminal_report_contains_findings() {
    let outcome = sample_outcome();
    let text = render_terminal(&outcome);
    assert!(text.contains("SS-001"));
    assert!(text.contains("finding(s)"));
}

#[test]
fn markdown_report_contains_table() {
    let outcome = sample_outcome();
    let text = render_markdown(&outcome);
    assert!(text.contains("| Severity | Count |"));
    assert!(text.contains("SS-001"));
}

#[test]
fn output_format_parsing() {
    assert_eq!(OutputFormat::parse("SARIF").unwrap(), OutputFormat::Sarif);
    assert_eq!(OutputFormat::parse("md").unwrap(), OutputFormat::Markdown);
    assert!(OutputFormat::parse("xml").is_err());
}

#[test]
fn output_format_names_round_trip() {
    for f in [OutputFormat::Terminal, OutputFormat::Json, OutputFormat::Sarif, OutputFormat::Markdown] {
        assert_eq!(OutputFormat::parse(f.as_str()).unwrap(), f);
    }
    assert_eq!(OutputFormat::parse("  Text ").unwrap(), OutputFormat::Terminal);
}

#[test]
fn severity_counts_and_summary_line() {
    let outcome = sample_outcome();
    let counts = severity_counts(&outcome.findings);
    assert_eq!(counts.iter().sum::<usize>(), outcome.findings.len());
    let empty: Vec<Finding> = Vec::new();
    assert_eq!(severity_counts(&empty), [0, 0, 0, 0, 0]);
    let line = summary_line(&[baseline_finding("a.rs", 1, "x")]);
    assert!(line.contains("1 finding(s)"));
    assert_eq!(sarif_level(Severity::Critical), "error");
    assert_eq!(sarif_level(Severity::Medium), "warning");
    assert_eq!(sarif_level(Severity::Info), "note");
}

// ---------------------------------------------------------------------------
// Hostile input.
// ---------------------------------------------------------------------------

fn scan_default(src: &str) -> ScanOutcome {
    let registry = RuleRegistry::with_default_rules();
    engine::scan_source_str(src, "adversarial.rs", &ScanConfig::default(), &registry)
}

#[test]
fn empty_and_whitespace_sources_are_safe() {
    for src in ["", "   \n\t  ", "// just a comment\n", "/* block */\n"] {
        let outcome = scan_default(src);
        assert!(outcome.findings.is_empty());
    }
}

#[test]
fn deeply_nested_structure_does_not_panic() {
    let depth = 200;
    let src = format!("fn f() {{ {} 0 {} }}", "(".repeat(depth), ")".repeat(depth));
    let outcome = scan_default(&src);
    assert!(outcome.findings.is_empty());
}

#[test]
fn very_long_line_does_not_panic() {
    let src = format!("fn f() {{ let x = \"{}\"; }}", "a".repeat(100_000));
    let outcome = scan_default(&src);
    assert!(outcome.findings.is_empty());
}

#[test]
fn unicode_identifiers_do_not_panic() {
    let src = "#[contractimpl]\nimpl C { pub fn \u{03b2}(\u{03b1}: u32) -> u32 { \u{03b1} } }\n";
    let _ = scan_default(src);
}

#[test]
fn many_entry_points_complete_quickly() {
    let mut src = String::from("#[contractimpl]\nimpl C {\n");
    for i in 0..2_000 {
        src.push_str(&format!(
            "    pub fn f{i}(env: Env) {{ env.storage().persistent().set(&K{i}, &{i}); }}\n"
        ));
    }
    src.push_str("}\n");
    let start = std::time::Instant::now();
    let outcome = scan_default(&src);
    let elapsed = start.elapsed();
    assert!(!outcome.findings.is_empty());
    assert!(elapsed < std::time::Duration::from_secs(30), "scan took too long: {elapsed:?}");
}

#[test]
fn repeated_scans_are_byte_identical() {
    let first = finding_summaries(&sample_outcome());
    for _ in 0..5 {
        assert_eq!(first, finding_summaries(&sample_outcome()));
    }
}

#[test]
fn malformed_source_does_not_panic() {
    let registry = RuleRegistry::with_default_rules();
    let outcome =
        engine::scan_source_str("fn broken( {", "broken.rs", &ScanConfig::default(), &registry);
    assert!(outcome.findings.is_empty());
    assert!(outcome.diagnostics.iter().any(|d| d.message.contains("failed to parse")));
}

#[test]
fn positive_fixture_is_flagged_and_sorted() {
    let outcome = sample_outcome();
    assert!(outcome.findings.iter().any(|f| f.rule_id == "SS-001"));
    for w in outcome.findings.windows(2) {
        assert!(w[0].sort_key() <= w[1].sort_key());
    }
}

#[test]
fn default_scan_is_the_union_of_single_rule_scans() {
    let src = r#"
#[contract]
pub struct C;
#[contractimpl]
impl C {
    pub fn put(env: Env, v: u32) {
        env.storage().persistent().set(&1u32, &v);
        let x: Option<u32> = None;
        x.unwrap();
        unsafe { core::hint::unreachable_unchecked() }
    }
}
"#;
    let all = scan_default(src);
    let mut union: Vec<String> = Vec::new();
    for rule in soroban_scan_core::rules::builtin::builtin_rules() {
        let mut registry = RuleRegistry::new();
        registry.register(rule).unwrap();
        let outcome =
            engine::scan_source_str(src, "adversarial.rs", &ScanConfig::default(), &registry);
        union.extend(outcome.findings.iter().map(|f| f.fingerprint.clone()));
    }
    let mut got: Vec<String> = all.findings.iter().map(|f| f.fingerprint.clone()).collect();
    got.sort();
    union.sort();
    assert_eq!(got, union);
    assert!(got.len() >= 3);
}

#[test]
fn sarif_report_is_valid_sarif() {
    let outcome = sample_outcome();
    let registry = RuleRegistry::with_default_rules();
    let text = soroban_scan_core::sarif::render_sarif(&outcome, &registry);
    let value: serde_json::Value = serde_json::from_str(&text).unwrap();
    assert_eq!(value["version"], "2.1.0");
    assert_eq!(value["$schema"], "https://json.schemastore.org/sarif-2.1.0.json");
    assert_eq!(value["runs"][0]["tool"]["driver"]["name"], "soroban-scan");
    assert_eq!(value["runs"][0]["tool"]["driver"]["rules"].as_array().unwrap().len(), 7);
    let results = value["runs"][0]["results"].as_array().unwrap();
    assert!(!results.is_empty());
    for result in results {
        assert!(result["ruleId"].is_string());
        assert!(result["locations"][0]["physicalLocation"]["artifactLocation"]["uri"].is_string());
        assert!(result["locations"][0]["physicalLocation"]["region"]["startLine"].is_u64());
    }
    assert_eq!(results[0]["partialFingerprints"]["sorobanScanFingerprint"], outcome.findings[0].fingerprint.as_str());
}

#[test]
fn json_report_is_valid_and_has_findings() {
    let outcome = sample_outcome();
    let text = soroban_scan_core::report_json::render_json(&outcome);
    let value: serde_json::Value = serde_json::from_str(&text).unwrap();
    assert_eq!(value["tool"]["name"], "soroban-scan");
    assert_eq!(value["tool"]["version"], soroban_scan_core::VERSION);
    let findings = value["findings"].as_array().unwrap();
    assert!(!findings.is_empty());
    assert_eq!(findings.len(), outcome.findings.len());
    assert_eq!(findings[0]["rule_id"], outcome.findings[0].rule_id.as_str());
    assert_eq!(findings[0]["location"]["line"], outcome.findings[0].location.line as u64);
    assert_eq!(value["stats"]["files_analyzed"], 1);
    assert_eq!(value["project"]["kind"], "confirmed_soroban");
}

#[test]
fn rule_list_and_detail_render_as_json() {
    let registry = RuleRegistry::with_default_rules();
    let metas = registry.metadata_sorted();
    let list = soroban_scan_core::report_json::render_rule_list(&metas, OutputFormat::Json);
    let value: serde_json::Value = serde_json::from_str(&list).unwrap();
    assert_eq!(value.as_array().unwrap().len(), 7);
    assert_eq!(value[0]["id"], "SS-001");
    let detail = soroban_scan_core::report_json::render_rule_detail(&metas[0], OutputFormat::Json);
    let value: serde_json::Value = serde_json::from_str(&detail).unwrap();
    assert_eq!(value["id"], "SS-001");
    assert!(value["references"].is_array());
    let text = soroban_scan_core::report_json::render_rule_list(&metas, OutputFormat::Terminal);
    assert!(text.contains("SS-007"));
    let sarif = soroban_scan_core::report_json::render(&sample_outcome(), &registry, OutputFormat::Sarif);
    assert!(sarif.contains("\"2.1.0\""));
}

#[test]
fn skipped_nested_manifests_are_path_warnings() {
    let loaded = load_in_memory(
        "/p",
        &[
            ("/p/Cargo.toml", "[package]\nname = \"root\"\nversion = \"0.1.0\"\n"),
            ("/p/nested/Cargo.toml", "not = = toml"),
        ],
        &[],
    )
    .unwrap();
    let d = &loaded.project.diagnostics[0];
    assert_eq!(d.level, soroban_scan_core::model::DiagnosticLevel::Warning);
    assert_eq!(d.path.as_deref(), Some("/p/nested/Cargo.toml"));
    assert!(d.message.starts_with("skipping unreadable manifest: "));
}

struct OffByDefault {
    meta: RuleMetadata,
}

impl Rule for OffByDefault {
    fn enabled_by_default(&self) -> bool {
        false
    }
    fn metadata(&self) -> RuleMetadata {
        self.meta
    }
    fn analyze(&self, _ctx: &AnalysisContext<'_>, out: &mut Vec<Finding>) {
        out.push(Finding::new(&self.meta, SourceLocation::new("src/lib.rs", 1), "fn a() {}"));
    }
}

#[test]
fn rules_off_by_default_are_skipped() {
    let loaded = engine_fixture();
    let mut registry = RuleRegistry::new();
    registry.register(OffByDefault { meta: OneFindingRule::new(Severity::High).meta }).unwrap();
    let outcome = scan(&loaded, &registry, &ScanConfig::default());
    assert!(outcome.findings.is_empty());
    assert_eq!(outcome.stats.rules_run, 0);
    assert_eq!(outcome.stats.rules_skipped, 1);
}

fn key_positions(text: &str, keys: &[&str]) -> Vec<usize> {
    keys.iter().map(|k| text.find(&format!("\"{k}\"")).unwrap()).collect()
}

fn increasing(v: &[usize]) -> bool {
    v.windows(2).all(|w| w[0] < w[1])
}

#[test]
fn json_report_members_follow_field_order() {
    let text = soroban_scan_core::report_json::render_json(&sample_outcome());
    assert!(increasing(&key_positions(&text, &["tool", "project", "stats", "findings", "diagnostics"])));
    assert!(increasing(&key_positions(&text, &["rule_id", "title", "description", "severity", "confidence", "category", "location", "evidence", "remediation", "references", "fingerprint"])));
    assert!(increasing(&key_positions(&text, &["file", "line", "column"])));
}

#[test]
fn sarif_members_are_sorted_by_key() {
    let registry = RuleRegistry::with_default_rules();
    let text = soroban_scan_core::sarif::render_sarif(&sample_outcome(), &registry);
    assert!(increasing(&key_positions(&text, &["$schema", "runs", "results"])));
    assert!(text.trim_end().ends_with("\"version\": \"2.1.0\"\n}") || text.contains("\"version\": \"2.1.0\"\n}"));
    assert!(increasing(&key_positions(&text, &["defaultConfiguration", "fullDescription", "helpUri"])));
    let detail = soroban_scan_core::report_json::render_rule_detail(&registry.metadata_sorted()[0], OutputFormat::Json);
    assert!(increasing(&key_positions(&detail, &["category", "confidence", "description", "id", "references", "remediation", "severity", "title"])));
}
