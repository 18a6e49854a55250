use soroban_scan_core::category::Category;
use soroban_scan_core::confidence::Confidence;
use soroban_scan_core::config::{RulesConfig, ScanConfig};
use soroban_scan_core::error::ScanError;
use soroban_scan_core::finding::{fingerprint_of, Finding, SourceLocation};
use soroban_scan_core::model::{
    DepKind, DepSource, Dependency, Manifest, PackageInfo, ProjectKind, SorobanInfo,
};
use soroban_scan_core::rule::RuleMetadata;
use soroban_scan_core::severity::Severity;
use soroban_scan_core::soroban::{
    analyze_manifests, classify, contract_attribute_strength, is_soroban_dependency,
    note_contract_definition, ContractAttrStrength,
};
use soroban_scan_core::{version_string, TOOL_NAME, VERSION};

#[test]
fn parses_kebab_and_snake() {
    assert_eq!(
        "access-control".parse::<Category>().unwrap(),
        Category::AccessControl
    );
    assert_eq!(
        "access_control".parse::<Category>().unwrap(),
        Category::AccessControl
    );
}

#[test]
fn round_trips() {
    for c in [
        Category::Authorization,
        Category::CrossContract,
        Category::ResourceUsage,
    ] {
        assert_eq!(c.as_str().parse::<Category>().unwrap(), c);
    }
}

#[test]
fn confidence_ordering_is_ascending() {
    assert!(Confidence::High > Confidence::Medium);
    assert!(Confidence::Medium > Confidence::Low);
}

#[test]
fn confidence_parses_names() {
    assert_eq!("low".parse::<Confidence>().unwrap(), Confidence::Low);
    assert!("nope".parse::<Confidence>().is_err());
}

#[test]
fn severity_ordering_is_ascending() {
    assert!(Severity::Critical > Severity::High);
    assert!(Severity::High > Severity::Medium);
    assert!(Severity::Medium > Severity::Low);
    assert!(Severity::Low > Severity::Info);
}

#[test]
fn meets_threshold() {
    assert!(Severity::High.meets(Severity::Medium));
    assert!(Severity::Medium.meets(Severity::Medium));
    assert!(!Severity::Low.meets(Severity::Medium));
}

#[test]
fn severity_parses_names() {
    assert_eq!("HIGH".parse::<Severity>().unwrap(), Severity::High);
    assert_eq!("crit".parse::<Severity>().unwrap(), Severity::Critical);
    assert!("nope".parse::<Severity>().is_err());
}

#[test]
fn severity_names_round_trip_all_values() {
    for s in [
        Severity::Info,
        Severity::Low,
        Severity::Medium,
        Severity::High,
        Severity::Critical,
    ] {
        assert_eq!(Severity::parse_name(s.as_str()).unwrap(), s);
    }
    assert_eq!(
        Severity::parse_name("bogus").unwrap_err(),
        "unknown severity: bogus"
    );
}

#[test]
fn defaults_are_permissive_and_safe() {
    let config = ScanConfig::default();
    assert_eq!(config.min_severity, Severity::Info);
    assert_eq!(config.min_confidence, Confidence::Low);
    assert!(!config.follow_symlinks);
}

#[test]
fn rule_enable_disable_logic() {
    let rules = RulesConfig::default();
    assert!(rules.is_enabled("SS-001"));

    let rules = RulesConfig {
        disabled: vec!["SS-001".into()],
        ..RulesConfig::default()
    };
    assert!(!rules.is_enabled("SS-001"));

    let only = RulesConfig {
        enabled: vec!["SS-002".into()],
        ..RulesConfig::default()
    };
    assert!(only.is_enabled("SS-002"));
    assert!(!only.is_enabled("SS-001"));
}

#[test]
fn disabling_wins_over_enabling() {
    let rules = RulesConfig {
        disabled: vec!["SS-003".into()],
        enabled: vec!["SS-003".into()],
        ..RulesConfig::default()
    };
    assert!(!rules.is_enabled("SS-003"));
}

#[test]
fn overrides_take_the_first_entry() {
    let rules = RulesConfig {
        severity_overrides: vec![("SS-001".into(), Severity::Low)],
        confidence_overrides: vec![("SS-002".into(), Confidence::High)],
        ..RulesConfig::default()
    };
    assert_eq!(rules.severity_override("SS-001"), Some(Severity::Low));
    assert_eq!(rules.severity_override("SS-002"), None);
    assert_eq!(rules.confidence_override("SS-002"), Some(Confidence::High));
}

#[test]
fn io_error_displays_path() {
    let err = ScanError::io(
        "/tmp/x.rs",
        std::io::Error::new(std::io::ErrorKind::NotFound, "missing"),
    );
    let msg = err.display_text();
    assert!(msg.contains("/tmp/x.rs"));
    assert!(msg.contains("missing"));
}

#[test]
fn parse_error_displays_message() {
    let err = ScanError::parse("a/b.rs", "unexpected token");
    assert!(err.display_text().contains("unexpected token"));
    assert_eq!(err.display_text(), "failed to parse a/b.rs: unexpected token");
}

#[test]
fn fingerprint_is_stable_and_whitespace_insensitive() {
    let a = fingerprint_of("SS-001", "src/lib.rs", "  require_auth\n missing ");
    let b = fingerprint_of("SS-001", "src/lib.rs", "require_auth missing");
    assert_eq!(a, b);
    assert_eq!(a.len(), 32);
}

#[test]
fn fingerprint_changes_with_rule_and_file() {
    let base = fingerprint_of("SS-001", "src/lib.rs", "x");
    assert_ne!(base, fingerprint_of("SS-002", "src/lib.rs", "x"));
    assert_ne!(base, fingerprint_of("SS-001", "src/a.rs", "x"));
}

#[test]
fn fingerprint_ignores_path_separator_style() {
    let a = fingerprint_of("SS-001", "src\\lib.rs", "x");
    let b = fingerprint_of("SS-001", "src/lib.rs", "x");
    assert_eq!(a, b);
    assert!(a.chars().all(|c| c.is_ascii_hexdigit() && !c.is_ascii_uppercase()));
}

#[test]
fn location_label_includes_column() {
    let loc = SourceLocation::with_column("src/lib.rs", 10, 5);
    assert_eq!(loc.display_label(), "src/lib.rs:10:5");
    let loc = SourceLocation::new("src/lib.rs", 10);
    assert_eq!(loc.display_label(), "src/lib.rs:10");
}

#[test]
fn finding_takes_rule_defaults() {
    let meta = RuleMetadata::new(
        "SS-001",
        "Title",
        "description",
        Category::Authorization,
        Severity::High,
        Confidence::Medium,
        "fix",
    )
    .with_references(&["https://example.com"]);
    let f = Finding::new(&meta, SourceLocation::new("src/lib.rs", 3), "ev");
    assert_eq!(f.rule_id, "SS-001");
    assert_eq!(f.severity, Severity::High);
    assert_eq!(f.confidence, Confidence::Medium);
    assert_eq!(f.references, vec!["https://example.com".to_string()]);
    assert_eq!(f.fingerprint, fingerprint_of("SS-001", "src/lib.rs", "ev"));
    let (file, line, col, rule, _) = f.sort_key();
    assert_eq!((file.as_str(), line, col, rule.as_str()), ("src/lib.rs", 3, 0, "SS-001"));
}

#[test]
fn metadata_builder_attaches_references() {
    let meta = RuleMetadata::new(
        "SS-999",
        "Test",
        "desc",
        Category::Authorization,
        Severity::High,
        Confidence::Medium,
        "fix it",
    )
    .with_references(&["https://example.com"]);
    assert_eq!(meta.id, "SS-999");
    assert_eq!(meta.references.len(), 1);
    assert_eq!(meta.default_confidence, Confidence::Medium);
}

#[test]
fn version_string_contains_name_and_version() {
    let v = version_string();
    assert!(v.starts_with(TOOL_NAME));
    assert!(v.contains(VERSION));
    assert_eq!(v, "soroban-scan 0.1.0");
}

#[test]
fn project_kind_display_is_stable() {
    assert_eq!(ProjectKind::GenericRust.as_str(), "generic_rust");
    assert_eq!(ProjectKind::LikelySoroban.as_str(), "likely_soroban");
    assert_eq!(ProjectKind::ConfirmedSoroban.as_str(), "confirmed_soroban");
}

fn demo_manifest() -> Manifest {
    Manifest {
        path: "Cargo.toml".into(),
        package: Some(PackageInfo {
            name: "demo".into(),
            version: Some("0.1.0".into()),
            edition: Some("2021".into()),
        }),
        workspace: None,
        dependencies: vec![Dependency {
            name: "soroban-sdk".into(),
            version: Some("21.0.0".into()),
            source: DepSource::Registry { registry: None },
            kind: DepKind::Normal,
            optional: false,
        }],
    }
}

#[test]
fn manifest_dependency_lookup() {
    let m = demo_manifest();
    assert!(m.dependency("soroban-sdk").is_some());
    assert!(m.dependency("serde").is_none());
    assert_eq!(m.label(), "demo");
    assert!(!m.is_workspace_root());
}

#[test]
fn attribute_classification() {
    assert_eq!(
        contract_attribute_strength("contractimpl"),
        Some(ContractAttrStrength::Definition)
    );
    assert_eq!(
        contract_attribute_strength("contracttype"),
        Some(ContractAttrStrength::Related)
    );
    assert_eq!(contract_attribute_strength("derive"), None);
}

#[test]
fn soroban_dependency_name_matching() {
    assert!(is_soroban_dependency("soroban-sdk"));
    assert!(is_soroban_dependency("soroban_token_sdk"));
    assert!(is_soroban_dependency("soroban-token-sdk"));
    assert!(!is_soroban_dependency("serde"));
}

#[test]
fn detects_soroban_dependency() {
    let info = analyze_manifests(&[demo_manifest()]);
    assert!(info.has_sdk_dependency);
    assert_eq!(info.sdk_versions, vec!["21.0.0"]);
    assert_eq!(classify(&info), ProjectKind::LikelySoroban);
}

#[test]
fn contract_macro_confirms_soroban() {
    let mut info = SorobanInfo::default();
    assert_eq!(classify(&info), ProjectKind::GenericRust);
    note_contract_definition(&mut info, "src/lib.rs:1");
    note_contract_definition(&mut info, "src/lib.rs:1");
    assert_eq!(classify(&info), ProjectKind::ConfirmedSoroban);
    assert_eq!(info.evidence, vec!["contract definition at src/lib.rs:1"]);
}
