//! Tests of the analyzer facade and the result aggregator: the
//! overflow-checking fact read from manifest text, the run-level
//! findings, per-file analysis through the facade, detection's
//! independence from the catalog, and the severity-grouped counts.

use pluton::AnalysisResult;
use pluton::Severity;
use pluton::SolanaAnalyzer;
use pluton::syntax::BinOp;
use pluton::syntax::Expr;
use pluton::syntax::ExprKind;
use pluton::syntax::Function;
use pluton::syntax::Item;
use pluton::syntax::SourceFile;
use pluton::utils::Document;
use pluton::utils::load_vulnerability_descriptions;

#[test]
fn manifest_text_decides_the_overflow_fact() {
    assert!(SolanaAnalyzer::check_for_overflow_checks("[profile.release]\noverflow-checks = true\n"));
    assert!(SolanaAnalyzer::check_for_overflow_checks("overflow-checks=true"));
    assert!(!SolanaAnalyzer::check_for_overflow_checks("overflow-checks = false"));
    assert!(!SolanaAnalyzer::check_for_overflow_checks(""));

    let text = "[profile.release]\noverflow-checks = true\n".to_string();
    let with = SolanaAnalyzer::new("proj".to_string(), Some(&text));
    assert!(with.has_overflow_checks);
    assert_eq!(with.project_path, "proj");
    let without = SolanaAnalyzer::new("proj".to_string(), None);
    assert!(!without.has_overflow_checks);
}

#[test]
fn overflow_checks_note_is_recorded_at_the_manifest() {
    let mut result = AnalysisResult::default();
    result.push_overflow_checks_info();
    assert_eq!(result.info.len(), 1);
    assert_eq!(
        result.info[0].description,
        "Project has overflow-checks = true in Cargo.toml, which provides runtime protection against integer overflow/underflow"
    );
    assert_eq!(result.info[0].location.file, "Cargo.toml");
    assert_eq!(result.info[0].location.line, 0);
}

#[test]
fn parse_failure_is_one_warning_and_analysis_can_go_on() {
    let mut result = AnalysisResult::default();
    result.push_parse_failure_warning("bad.rs".to_string(), &"expected item".to_string());
    assert_eq!(result.warnings.len(), 1);
    assert_eq!(result.warnings[0].description, "Failed to parse file: expected item");
    assert_eq!(result.warnings[0].location.file, "bad.rs");
    assert_eq!(result.warnings[0].location.line, 0);
    assert_eq!(
        result.warnings[0].suggestion,
        "Check for syntax errors or unsupported Rust syntax"
    );

    // The same result keeps collecting findings from later files.
    let analyzer = SolanaAnalyzer::new("proj".to_string(), None);
    let content = "fn f() { a + b; }\n".to_string();
    let add = Expr {
        text: "a + b".to_string(),
        kind: ExprKind::Binary { op: BinOp::Add },
        children: vec![],
    };
    let file = SourceFile {
        items: vec![Item::Func(Function {
            name: "f".to_string(),
            text: "fn f() { a + b; }".to_string(),
            params: vec![],
            body_text: "{ a + b ; }".to_string(),
            body: vec![add],
        })],
    };
    analyzer.analyze_file("ok.rs".to_string(), &content, &file, &mut result);
    assert_eq!(result.warnings.len(), 1);
    assert_eq!(result.vulnerabilities.len(), 1);
    assert_eq!(result.vulnerabilities[0].location.file, "ok.rs");
}

#[test]
fn detection_does_not_read_the_catalog() {
    let analyzer = SolanaAnalyzer::new("proj".to_string(), None);
    let content = "fn f() { a + b; }\n".to_string();
    let make_file = || SourceFile {
        items: vec![Item::Func(Function {
            name: "f".to_string(),
            text: "fn f() { a + b; }".to_string(),
            params: vec![],
            body_text: "{ a + b ; }".to_string(),
            body: vec![Expr {
                text: "a + b".to_string(),
                kind: ExprKind::Binary { op: BinOp::Add },
                children: vec![],
            }],
        })],
    };

    let mut with_catalog = AnalysisResult::default();
    with_catalog.vulnerability_descriptions = load_vulnerability_descriptions(
        None,
        &vec![Document {
            stem: "overflow".to_string(),
            text: r#"{"description":"wraps"}"#.to_string(),
        }],
    );
    let mut without_catalog = AnalysisResult::default();

    analyzer.analyze_file("a.rs".to_string(), &content, &make_file(), &mut with_catalog);
    analyzer.analyze_file("a.rs".to_string(), &content, &make_file(), &mut without_catalog);

    assert_eq!(with_catalog.vulnerabilities.len(), without_catalog.vulnerabilities.len());
    assert_eq!(with_catalog.warnings.len(), without_catalog.warnings.len());
    assert_eq!(with_catalog.info.len(), without_catalog.info.len());
    assert_eq!(
        with_catalog.vulnerabilities[0].description,
        without_catalog.vulnerabilities[0].description
    );
    // The catalog itself is untouched by detection.
    assert_eq!(with_catalog.vulnerability_descriptions.len(), 1);
}

#[test]
fn counts_are_grouped_by_severity() {
    let analyzer = SolanaAnalyzer::new("proj".to_string(), None);
    let mut result = AnalysisResult::default();
    let content = "fn pay() { invoke(&ix); a + b; }\n".to_string();
    let file = SourceFile {
        items: vec![Item::Func(Function {
            name: "pay".to_string(),
            text: "fn pay() { invoke(&ix); a + b; }".to_string(),
            params: vec![],
            body_text: "{ invoke (& ix) ; a + b ; }".to_string(),
            body: vec![
                Expr {
                    text: "invoke(&ix)".to_string(),
                    kind: ExprKind::Call {
                        callee_text: "invoke".to_string(),
                        args_text: "& ix".to_string(),
                    },
                    children: vec![],
                },
                Expr {
                    text: "a + b".to_string(),
                    kind: ExprKind::Binary { op: BinOp::Add },
                    children: vec![],
                },
            ],
        })],
    };
    analyzer.analyze_file("pay.rs".to_string(), &content, &file, &mut result);
    assert_eq!(result.count_by_severity(Severity::Critical), 1);
    assert_eq!(result.count_by_severity(Severity::High), 1);
    assert_eq!(result.count_by_severity(Severity::Medium), 0);
    assert_eq!(result.count_by_severity(Severity::Low), 0);
}
