use soroban_scan_core::lexdepth::max_expression_span;
use soroban_scan_core::lexdepth::max_delimiter_depth;
use soroban_scan_core::model::{Manifest, ProjectKind};
use soroban_scan_core::source::{
    load_sources_from, module_path_for, nearest_crate_root, parse_source, soroban_evidence,
    ItemKind, ParsedSource, SourceInput, MAX_NESTING_DEPTH,
};

fn parse(src: &str) -> ParsedSource {
    parse_source("src/lib.rs", ".", src)
}

#[test]
fn captures_function_spans() {
    let s = parse("fn a() {}\n\nfn b() {}\n");
    assert!(s.is_parsed());
    assert_eq!(s.functions.len(), 2);
    assert_eq!(s.functions[0].name, "a");
    assert_eq!(s.functions[0].line, 1);
    assert_eq!(s.functions[1].name, "b");
    assert_eq!(s.functions[1].line, 3);
    assert_eq!(s.functions[1].column, 1);
}

#[test]
fn identifies_contract_entry_points() {
    let src = r#"
use soroban_sdk::{contract, contractimpl, Env};

#[contract]
pub struct C;

#[contractimpl]
impl C {
    pub fn transfer(env: Env, amount: i128) {}
}
"#;
    let s = parse(src);
    assert_eq!(s.contract_definitions.len(), 2);
    assert!(s.contract_definitions[0].contains("src/lib.rs:"));
    assert_eq!(s.contract_definitions[0], "src/lib.rs:4");
    let entry: Vec<_> = s.contract_entry_points();
    assert_eq!(entry.len(), 1);
    assert_eq!(entry[0].name, "transfer");
    assert_eq!(entry[0].params.len(), 2);
    assert_eq!(entry[0].params[1].name, "amount");
    assert_eq!(entry[0].in_impl.as_deref(), Some("C"));
    assert_eq!(entry[0].qualified_name, "C::transfer");
}

#[test]
fn plain_impl_is_not_contract() {
    let src = "struct C;\nimpl C { pub fn f(&self) {} }\n";
    let s = parse(src);
    assert!(s.contract_definitions.is_empty());
    assert_eq!(s.contract_entry_points().len(), 0);
    assert_eq!(s.functions.len(), 1);
    assert!(!s.functions[0].is_contract_entry_point);
    assert_eq!(s.functions[0].params.len(), 0);
}

#[test]
fn walks_nested_modules() {
    let src = "mod inner { pub fn g() {} }\n";
    let s = parse(src);
    let f = s.functions.iter().find(|f| f.name == "g").unwrap();
    assert_eq!(f.qualified_name, "inner::g");
    assert!(s
        .items
        .iter()
        .any(|i| i.kind == ItemKind::Module && i.name == "inner"));
}

#[test]
fn items_are_inventoried_in_order() {
    let src = "use a::b;\npub struct S;\nenum E {}\nconst K: u8 = 1;\nmacro_rules! m { () => {} }\ntrait T { fn t(&self); }\n";
    let s = parse(src);
    let kinds: Vec<_> = s.items.iter().map(|i| i.kind).collect();
    assert_eq!(
        kinds,
        vec![
            ItemKind::Use,
            ItemKind::Struct,
            ItemKind::Enum,
            ItemKind::Const,
            ItemKind::Macro,
            ItemKind::Trait
        ]
    );
    assert!(s.items[1].is_public);
    assert_eq!(s.items[4].name, "macro_rules");
    assert_eq!(s.functions.len(), 1);
    assert_eq!(s.functions[0].qualified_name, "T::t");
    assert_eq!(ItemKind::TypeAlias.as_str(), "type_alias");
}

#[test]
fn parse_error_is_recorded_not_panicked() {
    let s = parse("fn broken( {");
    assert!(!s.is_parsed());
    assert!(s.parse_error.is_some());
    assert!(s.functions.is_empty());
}

#[test]
fn module_path_is_computed() {
    let root = "/proj";
    assert_eq!(module_path_for("/proj/src/lib.rs", root), "crate");
    assert_eq!(module_path_for("/proj/src/foo.rs", root), "crate::foo");
    assert_eq!(module_path_for("/proj/src/foo/mod.rs", root), "crate::foo");
}

#[test]
fn module_path_of_nested_and_binary_files() {
    assert_eq!(module_path_for("/proj/src/a/b.rs", "/proj"), "crate::a::b");
    assert_eq!(module_path_for("/proj/src/main.rs", "/proj"), "crate");
    assert_eq!(module_path_for("other/x.rs", "/proj"), "crate::other::x");
}

#[test]
fn classifies_contract_evidence() {
    let src = "#[contractimpl]\nimpl C { pub fn f() {} }\n";
    let s = parse(src);
    let info = soroban_evidence(&vec![s]);
    assert!(info.contract_macros_found);
    assert_eq!(info.evidence, vec!["contract definition at src/lib.rs:1"]);
}

#[test]
fn measures_delimiter_depth() {
    assert_eq!(max_delimiter_depth("fn f() { (()) }"), 3);
    assert_eq!(max_delimiter_depth("fn f() {}"), 1);
}

#[test]
fn ignores_delimiters_in_strings_and_comments() {
    assert_eq!(max_delimiter_depth("let s = \"((((((\";"), 0);
    assert_eq!(max_delimiter_depth("// ((((((\n"), 0);
    assert_eq!(max_delimiter_depth("/* (((((( */"), 0);
    assert_eq!(max_delimiter_depth("let r = r#\"(((((\"#;"), 0);
    assert_eq!(max_delimiter_depth("let c = '(';"), 0);
}

#[test]
fn depth_handles_nested_comments_lifetimes_and_escapes() {
    assert_eq!(max_delimiter_depth("/* /* ( */ ( */ [x]"), 1);
    assert_eq!(max_delimiter_depth("fn f<'a>(x: &'a u8) {}"), 1);
    assert_eq!(max_delimiter_depth("let s = \"\\\"(\"; (1)"), 1);
    assert_eq!(max_delimiter_depth("let c = '\\u{28}'; ((1))"), 2);
    assert_eq!(max_delimiter_depth("))) ("), 1);
}

#[test]
fn rejects_pathologically_nested_source() {
    let depth = MAX_NESTING_DEPTH + 50;
    let src = format!("fn f() {{ {}0{} }}", "(".repeat(depth), ")".repeat(depth));
    let parsed = parse(&src);
    assert!(parsed.parse_error.is_some());
    assert!(!parsed.is_parsed());
    assert_eq!(
        parsed.parse_error.as_deref(),
        Some("source nesting exceeds the 192-level safety limit")
    );
}

#[test]
fn nearest_crate_root_prefers_deepest_then_last() {
    let roots = vec!["/p".to_string(), "/p/crates/a".to_string(), "/q".to_string()];
    assert_eq!(
        nearest_crate_root("/p/crates/a/src/lib.rs", &roots).as_deref(),
        Some("/p/crates/a")
    );
    assert_eq!(nearest_crate_root("/p/src/lib.rs", &roots).as_deref(), Some("/p"));
    assert_eq!(nearest_crate_root("/z/src/lib.rs", &roots), None);
}

#[test]
fn unreadable_and_oversized_sources_are_diagnostics() {
    let manifests: Vec<Manifest> = vec![Manifest {
        path: "/p/Cargo.toml".into(),
        package: None,
        workspace: None,
        dependencies: vec![],
    }];
    let inputs = vec![
        SourceInput::TooLarge { path: "/p/src/big.rs".into() },
        SourceInput::Unreadable { path: "/p/src/x.rs".into(), error: "denied".into() },
        SourceInput::Text { path: "/p/src/lib.rs".into(), content: "fn broken( {".into() },
        SourceInput::Text { path: "/p/src/ok.rs".into(), content: "fn ok() {}".into() },
    ];
    let (sources, diags) = load_sources_from(&inputs, &manifests, "/p");
    assert_eq!(sources.len(), 2);
    assert_eq!(sources[1].mod_path, "crate::ok");
    assert_eq!(diags.len(), 3);
    assert_eq!(diags[0].message, "skipping source file larger than 8388608 bytes");
    assert_eq!(diags[1].message, "skipping unreadable source file: denied");
    assert!(diags[2].message.starts_with("failed to parse source: "));
    assert_eq!(diags[2].path.as_deref(), Some("/p/src/lib.rs"));
    let _ = ProjectKind::GenericRust;
}

#[test]
fn attribute_path_joins_segments() {
    let segs = vec!["soroban_sdk".to_string(), "contractimpl".to_string()];
    assert_eq!(soroban_scan_core::source::attribute_path(&segs), "soroban_sdk::contractimpl");
    assert_eq!(soroban_scan_core::source::attribute_path(&vec!["contract".to_string()]), "contract");
    assert_eq!(soroban_scan_core::source::attribute_path(&Vec::new()), "");
}

#[test]
fn expression_span_counts_tokens_along_one_path() {
    assert_eq!(max_expression_span(""), 0);
    assert_eq!(max_expression_span("a;b"), 1);
    assert_eq!(max_expression_span("x.y"), 3);
    assert_eq!(max_expression_span("(ab)"), 2);
    assert_eq!(max_expression_span("a, \"a long string literal\""), 1);
    assert_eq!(max_expression_span("fn f() { x.a().b() }"), 11);
    assert_eq!(max_expression_span("// ((((\nab"), 1);
    assert_eq!(max_expression_span("fn a() {} fn b() {}"), 4);
    assert_eq!(max_expression_span("if a {} else {}"), 5);
}

#[test]
fn long_operator_runs_and_chains_are_rejected_before_parsing() {
    let prefix = format!("fn f() {{ let y = {}x; }}", "!".repeat(200_000));
    let parsed = soroban_scan_core::source::parse_source("src/lib.rs", ".", &prefix);
    assert_eq!(
        parsed.parse_error.as_deref(),
        Some("source expression nesting exceeds the 1024-token safety limit")
    );
    let chain = format!("fn f() {{ x{}; }}", ".a()".repeat(100_000));
    let parsed = soroban_scan_core::source::parse_source("src/lib.rs", ".", &chain);
    assert!(parsed.parse_error.is_some());
    let sum = format!("fn f() -> u32 {{ 1{} }}", " + 1".repeat(50_000));
    let parsed = soroban_scan_core::source::parse_source("src/lib.rs", ".", &sum);
    assert!(parsed.parse_error.is_some());
    let chain = format!("fn f() {{ if a {{}}{} }}", " else if a {}".repeat(50_000));
    let parsed = soroban_scan_core::source::parse_source("src/lib.rs", ".", &chain);
    assert!(parsed.parse_error.is_some());
    let items = "fn a() {}\n".repeat(5_000);
    assert!(soroban_scan_core::source::parse_source("src/lib.rs", ".", &items).parse_error.is_none());
    let ok = "fn f() { let v = x.a().b().c(); if a { 1 } else if b { 2 } else { 3 }; }";
    assert!(soroban_scan_core::source::parse_source("src/lib.rs", ".", ok).parse_error.is_none());
}
