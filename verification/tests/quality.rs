use soroban_scan_core::source::within_source_limit;
use soroban_scan_core::category::Category;
use soroban_scan_core::config::{RulesConfig, ScanConfig};
use soroban_scan_core::discovery::{
    classify_entry, compile_excludes, is_ignored_dir, DiscoveryOptions, EntryAction,
};
use soroban_scan_core::engine;
use soroban_scan_core::error::ScanError;
use soroban_scan_core::manifest::parse_manifest;
use soroban_scan_core::model::ProjectKind;
use soroban_scan_core::registry::RuleRegistry;
use soroban_scan_core::rules::validation::validate_registry;
use soroban_scan_core::soroban::{analyze_manifests, classify};

/// One source per built-in rule that the rule flags.
fn positive_source(id: &str) -> &'static str {
    match id {
        "SS-001" => "#[contract]\npub struct C;\n#[contractimpl]\nimpl C {\n    pub fn set_value(env: Env, v: u32) {\n        env.storage().persistent().set(&1u32, &v);\n    }\n}\n",
        "SS-002" => "#[contract]\npub struct C;\n#[contractimpl]\nimpl C {\n    pub fn pay(env: Env, token: Address, to: Address) {\n        let client = TokenClient::new(&env, &token);\n        client.transfer(&env.current_contract_address(), &to, &1);\n    }\n}\n",
        "SS-003" => "#[contract]\npub struct C;\n#[contractimpl]\nimpl C {\n    pub fn sum(env: Env) -> u32 {\n        let mut t = 0;\n        for k in env.storage().persistent().keys() { t += 1; }\n        t\n    }\n}\n",
        "SS-004" => "#[contract]\npub struct C;\n#[contractimpl]\nimpl C {\n    pub fn get(env: Env) -> u32 {\n        env.storage().instance().get(&1u32).unwrap()\n    }\n}\n",
        "SS-005" => "#[contract]\npub struct C;\n#[contractimpl]\nimpl C {\n    pub fn f(env: Env) -> u32 { unsafe { core::hint::unreachable_unchecked() } }\n}\n",
        "SS-006" => "#[contract]\npub struct C;\n#[contractimpl]\nimpl C {\n    pub fn put(env: Env, v: u32) {\n        env.storage().persistent().set(&1u32, &v);\n    }\n}\n",
        _ => "#[contract]\npub struct C;\n#[contractimpl]\nimpl C {\n    pub fn admin(env: Env) -> Address {\n        Address::from_string(&String::from_str(&env, \"GAAZI4TCR3TY5OJHCTJC2A4QSY6CJWJH5IAJTGKIN2ER7LBNVKOCCWN7\"))\n    }\n}\n",
    }
}

#[test]
fn built_in_rule_metadata_is_valid() {
    let registry = RuleRegistry::with_default_rules();
    let issues = validate_registry(&registry);
    assert!(issues.is_empty(), "rule metadata issues: {issues:#?}");
}

#[test]
fn rules_can_be_selected_individually() {
    let registry = RuleRegistry::with_default_rules();
    for meta in registry.metadata_sorted() {
        let config = ScanConfig {
            rules: RulesConfig { enabled: vec![meta.id.to_string()], ..RulesConfig::default() },
            ..ScanConfig::default()
        };
        let outcome =
            engine::scan_source_str(positive_source(meta.id), "positive.rs", &config, &registry);
        assert!(
            outcome.findings.iter().all(|f| f.rule_id == meta.id),
            "{}: selection leaked other rules",
            meta.id
        );
        assert!(!outcome.findings.is_empty(), "{}: rule could not be selected", meta.id);
    }
}

#[test]
fn metadata_is_deterministic_across_registries() {
    let a = RuleRegistry::with_default_rules();
    let b = RuleRegistry::with_default_rules();
    let ka: Vec<_> = a
        .metadata_sorted()
        .iter()
        .map(|m| (m.id, m.default_severity, m.default_confidence))
        .collect();
    let kb: Vec<_> = b
        .metadata_sorted()
        .iter()
        .map(|m| (m.id, m.default_severity, m.default_confidence))
        .collect();
    assert_eq!(ka, kb);
}

#[test]
fn corpus_scanning_is_deterministic() {
    let registry = RuleRegistry::with_default_rules();
    let config = ScanConfig::default();
    let src = positive_source("SS-001");
    let a = engine::scan_source_str(src, "positive.rs", &config, &registry);
    let b = engine::scan_source_str(src, "positive.rs", &config, &registry);
    assert_eq!(a.findings, b.findings);
    assert!(!a.findings.is_empty());
}

#[test]
fn plain_rust_is_generic() {
    let m = parse_manifest("Cargo.toml", "[workspace]\n[dependencies]\nserde = \"1\"\n").unwrap();
    let info = analyze_manifests(&[m]);
    assert!(!info.has_sdk_dependency);
    assert_eq!(classify(&info), ProjectKind::GenericRust);
}

// Discovery decisions on walked entries.

fn collect(root: &str, entries: &[(&str, bool)], opts: &DiscoveryOptions) -> (Vec<String>, Vec<String>) {
    let excludes = compile_excludes(&opts.exclude).unwrap();
    let mut manifests = Vec::new();
    let mut sources = Vec::new();
    for (p, is_dir) in entries {
        match classify_entry(root, p, *is_dir, false, opts, &excludes) {
            EntryAction::Manifest => manifests.push(p.to_string()),
            EntryAction::RustFile => sources.push(p.to_string()),
            EntryAction::Skip => {}
        }
    }
    (manifests, sources)
}

#[test]
fn discovers_manifests_and_sources() {
    let entries = [
        ("/r", true),
        ("/r/Cargo.toml", false),
        ("/r/src", true),
        ("/r/src/lib.rs", false),
        ("/r/contracts/c/Cargo.toml", false),
        ("/r/contracts/c/src/lib.rs", false),
        ("/r/contracts/c/README.md", false),
    ];
    let (manifests, sources) = collect("/r", &entries, &DiscoveryOptions::default());
    assert_eq!(manifests.len(), 2);
    assert_eq!(sources.len(), 2);
}

#[test]
fn skips_target_directory() {
    assert!(is_ignored_dir("target"));
    assert!(is_ignored_dir(".git"));
    assert!(!is_ignored_dir("src"));
}

#[test]
fn applies_exclude_globs() {
    let opts = DiscoveryOptions { follow_symlinks: false, exclude: vec!["tests/**".to_string()] };
    let entries = [("/r/Cargo.toml", false), ("/r/src/lib.rs", false), ("/r/tests/it.rs", false)];
    let (_, sources) = collect("/r", &entries, &opts);
    assert_eq!(sources.len(), 1);
    assert!(sources[0].ends_with("lib.rs"));
}

#[test]
fn rejects_invalid_exclude_glob() {
    assert!(matches!(compile_excludes(&["[".to_string()]), Err(ScanError::Config(_))));
}

#[test]
fn symlinks_are_skipped_unless_followed() {
    let excludes = compile_excludes(&[]).unwrap();
    let opts = DiscoveryOptions::default();
    assert_eq!(
        classify_entry("/r", "/r/link.rs", false, true, &opts, &excludes),
        EntryAction::Skip
    );
    let follow = DiscoveryOptions { follow_symlinks: true, exclude: Vec::new() };
    assert_eq!(
        classify_entry("/r", "/r/link.rs", false, true, &follow, &excludes),
        EntryAction::RustFile
    );
}

#[test]
fn paths_sort_component_by_component() {
    let v = vec!["src/a.rs".to_string(), "src/a/x.rs".to_string(), "lib.rs".to_string()];
    let sorted = soroban_scan_core::order::sort_paths(&v);
    assert_eq!(sorted, vec!["lib.rs", "src/a/x.rs", "src/a.rs"]);
}

#[test]
fn category_names_are_lowercase_kebab_case() {
    let all = [
        Category::Authorization, Category::Authentication, Category::AccessControl,
        Category::CrossContract, Category::Token, Category::Storage, Category::Arithmetic,
        Category::ErrorHandling, Category::Events, Category::ResourceUsage,
        Category::Configuration, Category::Dependencies, Category::Unsafe,
    ];
    let mut names: Vec<&str> = all.iter().map(|c| c.as_str()).collect();
    for n in &names {
        assert!(!n.is_empty());
        assert!(n.chars().all(|c| c.is_ascii_lowercase() || c == '-'));
    }
    assert_eq!(Category::AccessControl.as_str(), "access-control");
    names.sort();
    names.dedup();
    assert_eq!(names.len(), all.len());
}

#[test]
fn registering_keeps_rules_on_error() {
    let mut registry = RuleRegistry::new();
    for rule in soroban_scan_core::rules::builtin::builtin_rules() {
        registry.register(rule).unwrap();
    }
    let again = soroban_scan_core::rules::builtin::builtin_rules();
    assert!(registry.register(again[0]).is_err());
    assert_eq!(registry.len(), 7);
    assert_eq!(registry.rules().len(), 7);
}

#[test]
fn large_files_are_not_read() {
    assert!(within_source_limit(8 * 1024 * 1024));
    assert!(!within_source_limit(8 * 1024 * 1024 + 1));
}

#[test]
fn exclude_globs_compile_into_one_set() {
    let opts = DiscoveryOptions {
        follow_symlinks: false,
        exclude: vec!["tests/**".to_string(), "**/gen_*.rs".to_string()],
    };
    let entries = [("/r/src/lib.rs", false), ("/r/tests/it.rs", false), ("/r/src/gen_x.rs", false)];
    let (_, sources) = collect("/r", &entries, &opts);
    assert_eq!(sources, vec!["/r/src/lib.rs"]);
    match compile_excludes(&["ok/**".to_string(), "{".to_string()]) {
        Err(ScanError::Config(m)) => assert!(m.starts_with("invalid exclude glob '{': ")),
        _ => panic!("expected a configuration error"),
    }
}
