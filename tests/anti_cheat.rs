use grader_orchestration::fingerprint::{calculate_similarity, CodeFingerprint, SIMILARITY_SCALE};
use grader_orchestration::plagiarism::{
    assess_risk_level, comparison_key, comparison_key_lower, fingerprint_language, language_from_lowercase,
    AntiCheatEngine, FingerprintError, RiskLevel, SourceLanguage, REPORT_THRESHOLD,
};
use grader_orchestration::syntax::{RustExpr, RustItem, RustStmt, ScriptExpr, ScriptItem, ScriptStmt, SyntaxTree, Tag};

fn token_similarity(a: &CodeFingerprint, b: &CodeFingerprint) -> u64 {
    let s = strsim::jaro_winkler(&a.token_sequence.join(" "), &b.token_sequence.join(" "));
    (s * SIMILARITY_SCALE as f64).round() as u64
}

fn let_only_fn() -> SyntaxTree {
    SyntaxTree::Rust(vec![RustItem::Fn(vec![RustStmt::Other])])
}

#[test]
fn test_fingerprint_generation() {
    let engine = AntiCheatEngine::new();
    let code = r#"
            fn main() {
                println!("Hello, world!");
            }
        "#;
    let tree = SyntaxTree::Rust(vec![RustItem::Fn(vec![RustStmt::Other])]);
    let fingerprint = engine.generate_fingerprint(code, "rust", &tree).unwrap();
    assert!(!fingerprint.ast_hash.is_empty());
    assert!(!fingerprint.token_sequence.is_empty());
}

#[test]
fn test_similarity_calculation() {
    let engine = AntiCheatEngine::new();
    let code1 = "fn test() { let x = 1; }";
    let code2 = "fn test() { let y = 1; }";
    let fp1 = engine.generate_fingerprint(code1, "rust", &let_only_fn()).unwrap();
    let fp2 = engine.generate_fingerprint(code2, "rust", &let_only_fn()).unwrap();
    let similarity = calculate_similarity(&fp1, &fp2, token_similarity(&fp1, &fp2));
    assert!(similarity > 0 && similarity < SIMILARITY_SCALE);
}

#[test]
fn content_hash_is_md5_hex() {
    let engine = AntiCheatEngine::new();
    let fp = engine.generate_fingerprint("", "rust", &SyntaxTree::Rust(vec![])).unwrap();
    assert_eq!(fp.ast_hash, "d41d8cd98f00b204e9800998ecf8427e");
    let fp = engine.generate_fingerprint("fn main() {}", "rust", &SyntaxTree::Rust(vec![RustItem::Fn(vec![])])).unwrap();
    assert_eq!(fp.ast_hash, "7f3ad7260873da9bcfebd77ce4a8c504");
}

#[test]
fn rust_tokens_follow_source_order() {
    let tree = SyntaxTree::Rust(vec![
        RustItem::Struct,
        RustItem::Fn(vec![
            RustStmt::Expr(RustExpr::Call),
            RustStmt::Expr(RustExpr::If(vec![RustStmt::Expr(RustExpr::MethodCall)])),
            RustStmt::Item(RustItem::Enum),
            RustStmt::Other,
        ]),
        RustItem::Other,
    ]);
    let fp = AntiCheatEngine::new().generate_fingerprint("src", "rust", &tree).unwrap();
    assert_eq!(
        fp.token_sequence,
        vec!["struct", "fn", "call", "if", "method_call", "enum", "other_stmt", "other_item"]
    );
    assert_eq!(fp.structural_features.count(Tag::Fn), 1);
    assert_eq!(fp.structural_features.count(Tag::If), 1);
    assert_eq!(fp.structural_features.count(Tag::Impl), 0);
}

#[test]
fn script_tokens_carry_identifier_names() {
    let tree = SyntaxTree::Script(vec![
        ScriptItem::ModuleDecl,
        ScriptItem::Stmt(ScriptStmt::Expr(ScriptExpr::Ident("total".to_string()))),
        ScriptItem::Stmt(ScriptStmt::Block(vec![
            ScriptStmt::If(ScriptExpr::Lit),
            ScriptStmt::Expr(ScriptExpr::Ident("x".to_string())),
            ScriptStmt::For,
        ])),
    ]);
    let fp = AntiCheatEngine::new().generate_fingerprint("src", "javascript", &tree).unwrap();
    assert_eq!(
        fp.token_sequence,
        vec!["module_decl", "expr_stmt", "ident_total", "block", "if", "literal", "expr_stmt", "ident_x", "for"]
    );
    assert_eq!(fp.structural_features.count(Tag::Ident), 2);
    assert_eq!(fp.structural_features.count(Tag::ExprStmt), 2);
}

#[test]
fn identical_fingerprints_are_fully_similar() {
    let fp = AntiCheatEngine::new().generate_fingerprint("fn a() {}", "rust", &let_only_fn()).unwrap();
    assert_eq!(calculate_similarity(&fp, &fp, token_similarity(&fp, &fp)), SIMILARITY_SCALE);
}

#[test]
fn similarity_is_symmetric() {
    let engine = AntiCheatEngine::new();
    let a = engine.generate_fingerprint("a", "rust", &SyntaxTree::Rust(vec![RustItem::Struct, RustItem::Enum])).unwrap();
    let b = engine.generate_fingerprint("b", "rust", &SyntaxTree::Rust(vec![RustItem::Struct, RustItem::Struct])).unwrap();
    let ab = calculate_similarity(&a, &b, token_similarity(&a, &b));
    let ba = calculate_similarity(&b, &a, token_similarity(&b, &a));
    assert_eq!(ab, ba);
    // hash 0, tokens 0.5, structure (2/3 for `struct`, 0 for `enum`) / 2
    assert_eq!(calculate_similarity(&a, &b, 500_000), (4 * 500_000 + 2 * ((666_666 + 0) / 2)) / 10);
}

#[test]
fn risk_bands() {
    assert_eq!(assess_risk_level(950_000), RiskLevel::Critical);
    assert_eq!(assess_risk_level(900_000), RiskLevel::Critical);
    assert_eq!(assess_risk_level(899_999), RiskLevel::High);
    assert_eq!(assess_risk_level(700_000), RiskLevel::High);
    assert_eq!(assess_risk_level(500_000), RiskLevel::Medium);
    assert_eq!(assess_risk_level(499_999), RiskLevel::Low);
    assert_eq!(assess_risk_level(0), RiskLevel::Low);
}

#[test]
fn language_names_in_any_case() {
    assert_eq!(language_from_lowercase("rust"), Some(SourceLanguage::Rust));
    assert_eq!(language_from_lowercase("javascript"), Some(SourceLanguage::Script));
    assert_eq!(language_from_lowercase("Rust"), None);
    assert!(matches!(fingerprint_language("RUST"), Ok(SourceLanguage::Rust)));
    assert!(matches!(fingerprint_language("TypeScript"), Ok(SourceLanguage::Script)));
    match fingerprint_language("Python") {
        Err(FingerprintError::UnsupportedLanguage(m)) => {
            assert_eq!(m, "Unsupported language for plagiarism detection: Python")
        }
        _ => panic!("python is not fingerprinted"),
    }
}

#[test]
fn comparison_key_lowercases_language() {
    assert_eq!(comparison_key("c1", "TypeScript"), "c1:typescript");
    assert_eq!(comparison_key_lower("c1", "rust"), "c1:rust");
}

#[test]
fn store_replaces_under_same_id() {
    let mut engine = AntiCheatEngine::new();
    engine.store_submission("c1:rust:alice", "a", "rust", &let_only_fn()).unwrap();
    engine.store_submission("c1:rust:bob", "b", "rust", &let_only_fn()).unwrap();
    engine.store_submission("c1:rust:alice", "c", "rust", &SyntaxTree::Rust(vec![])).unwrap();
    assert_eq!(engine.len(), 2);
    assert_eq!(engine.submission(0).submission_id, "c1:rust:alice");
    assert!(engine.submission(0).fingerprint.token_sequence.is_empty());
}

#[test]
fn plagiarism_matches_other_users_of_same_challenge() {
    let mut engine = AntiCheatEngine::new();
    let tree = SyntaxTree::Rust(vec![RustItem::Fn(vec![RustStmt::Expr(RustExpr::Call)])]);
    engine.store_submission("c1:rust:alice", "fn f() { g(); }", "rust", &tree).unwrap();
    engine.store_submission("c1:rust:bob", "fn f() { g(); }", "rust", &tree).unwrap();
    engine.store_submission("c2:rust:carol", "fn f() { g(); }", "rust", &tree).unwrap();
    engine.store_submission("c1:rust:dave", "struct S;", "rust", &SyntaxTree::Rust(vec![RustItem::Struct])).unwrap();
    let fp = engine.generate_fingerprint("fn f() { g(); }", "rust", &tree).unwrap();
    let key = comparison_key("c1", "Rust");
    let candidates = engine.candidate_ids(&key, "alice");
    assert_eq!(candidates, vec![1, 3]);
    let sims: Vec<u64> = candidates
        .iter()
        .map(|&c| token_similarity(&fp, &engine.submission(c).fingerprint))
        .collect();
    let result = engine.match_submissions(&fp, &candidates, &sims, 7);
    assert_eq!(result.matched_submissions.len(), 1);
    assert_eq!(result.matched_submissions[0].submission_id, "c1:rust:bob");
    assert_eq!(result.matched_submissions[0].matched_sections, vec!["full_code".to_string()]);
    assert_eq!(result.similarity_score, SIMILARITY_SCALE);
    assert_eq!(result.risk_level, RiskLevel::Critical);
    assert_eq!(result.analysis_time_ms, 7);
}

#[test]
fn nothing_reported_below_threshold() {
    let mut engine = AntiCheatEngine::new();
    engine.store_submission("c1:rust:bob", "x", "rust", &SyntaxTree::Rust(vec![RustItem::Struct])).unwrap();
    let fp = engine.generate_fingerprint("y", "rust", &SyntaxTree::Rust(vec![RustItem::Enum])).unwrap();
    let result = engine.match_submissions(&fp, &vec![0], &vec![REPORT_THRESHOLD * 2 - 1], 0);
    assert!(result.similarity_score < REPORT_THRESHOLD);
    assert!(result.matched_submissions.is_empty());
    assert_eq!(result.risk_level, RiskLevel::Low);
}

#[test]
fn other_users_with_overlapping_names_are_compared() {
    let mut engine = AntiCheatEngine::new();
    let tree = let_only_fn();
    engine.store_submission("c:rust:u10", "a", "rust", &tree).unwrap();
    engine.store_submission("c:rust:u1", "b", "rust", &tree).unwrap();
    engine.store_submission("c:rustx:u2", "c", "rust", &tree).unwrap();
    engine.store_submission("c:rust", "d", "rust", &tree).unwrap();
    assert_eq!(engine.candidate_ids("c:rust", "u1"), vec![0]);
    assert_eq!(engine.candidate_ids("c:rust", "u10"), vec![1]);
}

#[test]
fn fingerprint_needs_a_supported_matching_language() {
    let engine = AntiCheatEngine::new();
    assert!(matches!(
        engine.generate_fingerprint("x", "Python", &let_only_fn()),
        Err(FingerprintError::UnsupportedLanguage(_))
    ));
    assert!(matches!(
        engine.generate_fingerprint("x", "TypeScript", &let_only_fn()),
        Err(FingerprintError::ParseError(_))
    ));
    let fp = engine.generate_fingerprint("x", "RUST", &let_only_fn()).unwrap();
    assert_eq!(fp.ast_hash.len(), 32);
    let mut store = AntiCheatEngine::new();
    assert!(store.store_submission("c:go:u", "x", "go", &let_only_fn()).is_err());
    assert_eq!(store.len(), 0);
}
