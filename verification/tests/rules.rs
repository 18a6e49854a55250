use soroban_scan_core::category::Category;
use soroban_scan_core::confidence::Confidence;
use soroban_scan_core::config::ScanConfig;
use soroban_scan_core::context::AnalysisContext;
use soroban_scan_core::engine;
use soroban_scan_core::finding::Finding;
use soroban_scan_core::registry::{is_valid_rule_id, RegistryError, RuleRegistry};
use soroban_scan_core::rule::{Rule, RuleMetadata};
use soroban_scan_core::rules::builtin::BuiltinRule;
use soroban_scan_core::rules::cross_contract_auth::CrossContractAuth;
use soroban_scan_core::rules::hardcoded_address::HardcodedAddress;
use soroban_scan_core::rules::missing_authorization::MissingAuthorization;
use soroban_scan_core::rules::panic_prone::PanicProne;
use soroban_scan_core::rules::ttl_management::TtlManagement;
use soroban_scan_core::rules::unbounded_iteration::UnboundedIteration;
use soroban_scan_core::rules::unsafe_code::UnsafeCode;
use soroban_scan_core::rules::util::{
    contract_entry_functions, facts_from_file, looks_like_stellar_address, Facts,
};
use soroban_scan_core::rules::validation::{validate_metadata, validate_registry};
use soroban_scan_core::severity::Severity;
use soroban_scan_core::syntax::parse_rust;
use soroban_scan_core::text::truncate as truncate_text;

struct Summary {
    rule_id: String,
    evidence: String,
    line: usize,
}

fn scan_rule(src: &str, rule: BuiltinRule) -> Vec<Summary> {
    let mut registry = RuleRegistry::new();
    registry.register(rule).expect("test rule must have a valid id");
    let outcome =
        engine::scan_source_str(src, "src/lib.rs", &ScanConfig::default(), &registry);
    outcome
        .findings
        .iter()
        .map(|f| Summary {
            rule_id: f.rule_id.clone(),
            evidence: f.evidence.clone(),
            line: f.location.line,
        })
        .collect()
}

fn facts_of(src: &str) -> Facts {
    let tree = parse_rust(src).unwrap();
    facts_from_file(&tree)
}

#[test]
fn flags_storage_write_without_auth() {
    let findings = scan_rule(
        r#"
            #[contractimpl]
            impl C {
                pub fn set_value(env: Env, v: u32) {
                    env.storage().persistent().set(&Key::V, &v);
                }
            }
            "#,
        BuiltinRule::MissingAuthorization(MissingAuthorization),
    );
    assert_eq!(findings[0].rule_id, "SS-001");
    assert!(findings[0].evidence.contains("storage mutation"));
    assert_eq!(findings[0].line, 5);
}

#[test]
fn does_not_flag_when_auth_present() {
    let findings = scan_rule(
        r#"
            #[contractimpl]
            impl C {
                pub fn set_value(env: Env, admin: Address, v: u32) {
                    admin.require_auth();
                    env.storage().persistent().set(&Key::V, &v);
                }
            }
            "#,
        BuiltinRule::MissingAuthorization(MissingAuthorization),
    );
    assert!(findings.is_empty());
}

#[test]
fn does_not_flag_read_only_entry_point() {
    let findings = scan_rule(
        r#"
            #[contractimpl]
            impl C {
                pub fn get_value(env: Env) -> u32 {
                    env.storage().persistent().get(&Key::V).unwrap_or(0)
                }
            }
            "#,
        BuiltinRule::MissingAuthorization(MissingAuthorization),
    );
    assert!(findings.is_empty());
}

#[test]
fn flags_cross_contract_call_without_auth() {
    let findings = scan_rule(
        r#"
            #[contractimpl]
            impl C {
                pub fn pay(env: Env, id: Address, amount: i128) {
                    let client = TokenClient::new(&env, &id);
                    client.transfer(&env.current_contract_address(), &id, &amount);
                }
            }
            "#,
        BuiltinRule::CrossContractAuth(CrossContractAuth),
    );
    assert_eq!(findings.len(), 1);
    assert_eq!(findings[0].rule_id, "SS-002");
}

#[test]
fn does_not_flag_with_auth() {
    let findings = scan_rule(
        r#"
            #[contractimpl]
            impl C {
                pub fn pay(env: Env, from: Address, id: Address, amount: i128) {
                    from.require_auth();
                    let client = TokenClient::new(&env, &id);
                    client.transfer(&from, &id, &amount);
                }
            }
            "#,
        BuiltinRule::CrossContractAuth(CrossContractAuth),
    );
    assert!(findings.is_empty());
}

#[test]
fn flags_hardcoded_account_address() {
    let addr = format!("G{}", "A".repeat(55));
    let src =
        format!("#[contractimpl]\nimpl C {{ pub fn f() -> &'static str {{ \"{addr}\" }} }}\n");
    let findings = scan_rule(&src, BuiltinRule::HardcodedAddress(HardcodedAddress));
    assert_eq!(findings.len(), 1);
    assert_eq!(findings[0].rule_id, "SS-007");
    assert_eq!(findings[0].evidence, format!("hardcoded Stellar address literal: {addr}"));
}

#[test]
fn ignores_ordinary_strings() {
    let findings = scan_rule(
        "#[contractimpl]\nimpl C { pub fn f() -> &'static str { \"hello\" } }\n",
        BuiltinRule::HardcodedAddress(HardcodedAddress),
    );
    assert!(findings.is_empty());
}

#[test]
fn ignores_near_miss_string() {
    let addr = format!("X{}", "A".repeat(55));
    let src =
        format!("#[contractimpl]\nimpl C {{ pub fn f() -> &'static str {{ \"{addr}\" }} }}\n");
    let findings = scan_rule(&src, BuiltinRule::HardcodedAddress(HardcodedAddress));
    assert!(findings.is_empty());
}

#[test]
fn flags_unwrap_and_panic() {
    let findings = scan_rule(
        r#"
            #[contractimpl]
            impl C {
                pub fn f(env: Env) -> u32 {
                    let v = env.storage().persistent().get(&K).unwrap();
                    if v == 0 { panic!("zero"); }
                    v
                }
            }
            "#,
        BuiltinRule::PanicProne(PanicProne),
    );
    assert_eq!(findings.len(), 2);
    assert!(findings.iter().all(|f| f.rule_id == "SS-004"));
}

#[test]
fn does_not_flag_result_based_code() {
    let findings = scan_rule(
        r#"
            #[contractimpl]
            impl C {
                pub fn f(env: Env) -> u32 {
                    env.storage().persistent().get(&K).unwrap_or(0)
                }
            }
            "#,
        BuiltinRule::PanicProne(PanicProne),
    );
    assert!(findings.is_empty());
}

#[test]
fn flags_persistent_write_without_ttl() {
    let findings = scan_rule(
        r#"
            #[contractimpl]
            impl C {
                pub fn put(env: Env, admin: Address, v: u32) {
                    admin.require_auth();
                    env.storage().persistent().set(&K, &v);
                }
            }
            "#,
        BuiltinRule::TtlManagement(TtlManagement),
    );
    assert_eq!(findings.len(), 1);
    assert_eq!(findings[0].rule_id, "SS-006");
}

#[test]
fn does_not_flag_when_ttl_extended() {
    let findings = scan_rule(
        r#"
            #[contractimpl]
            impl C {
                pub fn put(env: Env, admin: Address, v: u32) {
                    admin.require_auth();
                    env.storage().persistent().set(&K, &v);
                    env.storage().persistent().extend_ttl(&K, 100, 1000);
                }
            }
            "#,
        BuiltinRule::TtlManagement(TtlManagement),
    );
    assert!(findings.is_empty());
}

#[test]
fn does_not_flag_instance_storage() {
    let findings = scan_rule(
        r#"
            #[contractimpl]
            impl C {
                pub fn put(env: Env, v: u32) {
                    env.storage().instance().set(&K, &v);
                }
            }
            "#,
        BuiltinRule::TtlManagement(TtlManagement),
    );
    assert!(findings.is_empty());
}

#[test]
fn flags_storage_iteration() {
    let findings = scan_rule(
        r#"
            #[contractimpl]
            impl C {
                pub fn total(env: Env) -> u32 {
                    let mut sum = 0;
                    for key in env.storage().persistent().keys() {
                        sum += 1;
                    }
                    sum
                }
            }
            "#,
        BuiltinRule::UnboundedIteration(UnboundedIteration),
    );
    assert_eq!(findings.len(), 1);
    assert_eq!(findings[0].rule_id, "SS-003");
}

#[test]
fn does_not_flag_bounded_local_loop() {
    let findings = scan_rule(
        r#"
            #[contractimpl]
            impl C {
                pub fn sum(xs: Vec<u32>) -> u32 {
                    let mut sum = 0;
                    for key in xs.iter() {
                        sum += key;
                    }
                    sum
                }
            }
            "#,
        BuiltinRule::UnboundedIteration(UnboundedIteration),
    );
    assert!(findings.is_empty());
}

#[test]
fn flags_unsafe_block() {
    let findings = scan_rule(
        r#"
            #[contractimpl]
            impl C {
                pub fn f(p: *const u8) {
                    unsafe { std::ptr::read(p); }
                }
            }
            "#,
        BuiltinRule::UnsafeCode(UnsafeCode),
    );
    assert_eq!(findings.len(), 1);
    assert_eq!(findings[0].rule_id, "SS-005");
    assert_eq!(findings[0].evidence, "unsafe block/expression in src/lib.rs");
}

#[test]
fn does_not_flag_safe_code() {
    let findings = scan_rule(
        "#[contractimpl]\nimpl C { pub fn f(x: u32) -> u32 { x + 1 } }\n",
        BuiltinRule::UnsafeCode(UnsafeCode),
    );
    assert!(findings.is_empty());
}

#[test]
fn rules_only_run_on_confirmed_contracts() {
    let findings = scan_rule(
        "impl C { pub fn f(env: Env) { env.storage().persistent().set(&K, &1); } }\n",
        BuiltinRule::MissingAuthorization(MissingAuthorization),
    );
    assert!(findings.is_empty());
}

#[test]
fn detects_storage_mutations() {
    let facts = facts_of("fn f(env: Env) { env.storage().persistent().set(&k, &v); }");
    let mutations = facts.storage_mutations();
    assert_eq!(mutations.len(), 1);
    assert_eq!(mutations[0].name, "set");
    assert_eq!(facts.persistent_mutations().len(), 1);
}

#[test]
fn unrelated_set_is_not_storage_mutation() {
    let facts = facts_of("fn f(m: Map) { m.set(&k, &v); }");
    assert!(facts.storage_mutations().is_empty());
}

#[test]
fn detects_require_auth() {
    let facts = facts_of("fn f(a: Address) { a.require_auth(); }");
    assert!(facts.has_require_auth());
}

#[test]
fn detects_panics() {
    let facts = facts_of("fn f() { let x = g().unwrap(); panic!(\"x\"); }");
    let panics = facts.panics();
    assert_eq!(panics.len(), 2);
    assert_eq!(panics[0].0, "unwrap");
    assert_eq!(panics[1].0, "panic");
}

#[test]
fn panics_are_sorted_by_position() {
    let facts = facts_of("fn f() {\n todo!();\n let x = g().expect(\"y\");\n}");
    let panics = facts.panics();
    assert_eq!(panics.len(), 2);
    assert_eq!(panics[0].0, "todo");
    assert_eq!(panics[0].1, 2);
    assert_eq!(panics[1].0, "expect");
}

#[test]
fn detects_unsafe() {
    let facts = facts_of("fn f() { unsafe { g(); } }");
    assert!(facts.has_unsafe);
    assert_eq!(facts.unsafe_locations.len(), 1);
}

#[test]
fn detects_cross_contract_constructor() {
    let facts = facts_of("fn f(env: Env) { let c = TokenClient::new(&env, &id); }");
    assert_eq!(facts.cross_contract_constructors().len(), 1);
}

#[test]
fn fact_columns_are_one_based() {
    let facts = facts_of("fn f() { a.b(); }");
    assert_eq!(facts.method_calls[0].line, 1);
    assert_eq!(facts.method_calls[0].column, 10);
}

#[test]
fn long_fact_text_is_truncated() {
    assert_eq!(truncate_text("abcdef", 3), "abc...");
    assert_eq!(truncate_text("abc", 3), "abc");
    assert_eq!(truncate_text("aé", 2), "a...");
}

#[test]
fn validates_strkey_shape() {
    let good = format!("G{}", "A".repeat(55));
    assert!(looks_like_stellar_address(&good));
    let bad = format!("X{}", "A".repeat(55));
    assert!(!looks_like_stellar_address(&bad));
    assert!(!looks_like_stellar_address("too-short"));
    let digits = format!("C{}", "7".repeat(55));
    assert!(looks_like_stellar_address(&digits));
    let lower = format!("G{}", "a".repeat(55));
    assert!(!looks_like_stellar_address(&lower));
}

#[test]
fn finds_contract_entry_functions_only() {
    let tree = parse_rust(
        r#"
            struct C;
            impl C { pub fn helper(&self) {} }
            #[contractimpl]
            impl X { pub fn entry() {} fn private() {} }
            "#,
    )
    .unwrap();
    let fns = contract_entry_functions(&tree);
    assert_eq!(fns.len(), 2);
    let names: Vec<_> = fns.iter().map(|f| f.name.as_str()).collect();
    assert!(names.contains(&"entry"));
    assert!(names.contains(&"private"));
    assert!(!names.contains(&"helper"));
}

struct Dummy {
    meta: RuleMetadata,
}

impl Dummy {
    fn new(id: &'static str) -> Self {
        Dummy {
            meta: RuleMetadata::new(
                id,
                "Dummy",
                "dummy rule",
                Category::Authorization,
                Severity::Low,
                Confidence::Low,
                "n/a",
            ),
        }
    }
}

impl Rule for Dummy {
    fn enabled_by_default(&self) -> bool {
        true
    }
    fn metadata(&self) -> RuleMetadata {
        self.meta
    }
    fn analyze(&self, _ctx: &AnalysisContext<'_>, _out: &mut Vec<Finding>) {}
}

#[test]
fn rejects_duplicate_ids() {
    let mut reg = RuleRegistry::new();
    reg.register(Dummy::new("SS-001")).unwrap();
    assert_eq!(
        reg.register(Dummy::new("SS-001")),
        Err(RegistryError::Duplicate("SS-001".into()))
    );
    assert_eq!(reg.len(), 1);
}

#[test]
fn rejects_malformed_ids() {
    let mut reg = RuleRegistry::new();
    assert!(matches!(
        reg.register(Dummy::new("AUTH-1")),
        Err(RegistryError::InvalidId(_))
    ));
    assert!(reg.is_empty());
}

#[test]
fn validates_rule_id_shape() {
    assert!(is_valid_rule_id("SS-001"));
    assert!(!is_valid_rule_id("SS-1"));
    assert!(!is_valid_rule_id("ss-001"));
    assert!(!is_valid_rule_id("SS-00a"));
}

#[test]
fn metadata_is_sorted() {
    let mut reg = RuleRegistry::new();
    reg.register(Dummy::new("SS-002")).unwrap();
    reg.register(Dummy::new("SS-001")).unwrap();
    let ids: Vec<_> = reg.metadata_sorted().iter().map(|m| m.id).collect();
    assert_eq!(ids, vec!["SS-001", "SS-002"]);
}

#[test]
fn default_registry_contains_all_detectors() {
    let registry = RuleRegistry::with_default_rules();
    let ids: Vec<_> = registry.metadata_sorted().iter().map(|m| m.id).collect();
    assert_eq!(
        ids,
        vec!["SS-001", "SS-002", "SS-003", "SS-004", "SS-005", "SS-006", "SS-007"]
    );
    assert!(registry.by_id("SS-004").is_some());
    assert!(registry.by_id("SS-100").is_none());
}

#[test]
fn registry_error_messages() {
    assert_eq!(
        RegistryError::Duplicate("SS-001".into()).display_text(),
        "duplicate rule id: SS-001"
    );
    assert_eq!(
        RegistryError::InvalidId("X".into()).display_text(),
        "invalid rule id: X (expected SS-###)"
    );
}

fn good_meta() -> RuleMetadata {
    RuleMetadata::new(
        "SS-100",
        "Example",
        "This description is comfortably longer than the minimum length.",
        Category::Authorization,
        Severity::High,
        Confidence::Medium,
        "Do the secure thing.",
    )
    .with_references(&["https://example.com/doc"])
}

#[test]
fn accepts_valid_metadata() {
    assert!(validate_metadata(&good_meta()).is_empty());
}

#[test]
fn rejects_short_description_and_missing_references() {
    let meta = RuleMetadata::new(
        "SS-101",
        "T",
        "too short",
        Category::Storage,
        Severity::Low,
        Confidence::Low,
        "",
    );
    let issues = validate_metadata(&meta);
    assert!(issues.iter().any(|i| i.contains("description")));
    assert!(issues.iter().any(|i| i.contains("remediation")));
    assert!(issues.iter().any(|i| i.contains("reference")));
}

#[test]
fn rejects_bad_reference_url() {
    let mut meta = good_meta();
    meta.references = &["not-a-url"];
    assert!(validate_metadata(&meta)
        .iter()
        .any(|i| i.contains("not a URL")));
}

#[test]
fn rejects_critical_high_confidence() {
    let mut meta = good_meta();
    meta.default_severity = Severity::Critical;
    meta.default_confidence = Confidence::High;
    assert!(validate_metadata(&meta)
        .iter()
        .any(|i| i.contains("critical severity with high confidence")));
}

#[test]
fn rejects_malformed_id_and_empty_title() {
    let mut meta = good_meta();
    meta.id = "bad";
    meta.title = "   ";
    let issues = validate_metadata(&meta);
    assert_eq!(issues[0], "invalid rule id: bad");
    assert_eq!(issues[1], "bad: title is empty");
}

#[test]
fn built_in_registry_is_valid() {
    let registry = RuleRegistry::with_default_rules();
    assert!(validate_registry(&registry).is_empty());
}
