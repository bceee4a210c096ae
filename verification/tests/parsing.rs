use molten::{load_source, parse_js, parse_js_result, parse_source, BoundaryResult, ParseOutcome};

#[test]
fn empty_source_parses_to_empty_module() {
    let doc = parse_js_result(String::new()).expect("empty source should parse");
    assert!(doc.contains("\"type\":\"Module\""));
    assert!(doc.contains("\"body\":[]"));
}

#[test]
fn parse_is_deterministic() {
    let first = parse_js_result("const a = 1;\nexport function f(b) { return a + b; }".to_string());
    let second = parse_js_result("const a = 1;\nexport function f(b) { return a + b; }".to_string());
    assert!(first.is_ok());
    assert_eq!(first, second);
}

#[test]
fn binary_expression_document_structure() {
    let doc = parse_js_result("1+1".to_string()).expect("source should parse");
    assert!(doc.contains("\"type\":\"ExpressionStatement\""));
    assert!(doc.contains("\"type\":\"BinaryExpression\""));
    assert!(doc.contains("\"operator\":\"+\""));
    assert!(doc.contains("\"span\""));
}

#[test]
fn statements_appear_in_source_order() {
    let doc = parse_js_result("let a = 1; let b = 2;".to_string()).expect("source should parse");
    let a = doc.find("\"value\":\"a\"").expect("first binding in document");
    let b = doc.find("\"value\":\"b\"").expect("second binding in document");
    assert!(a < b);
}

#[test]
fn unbalanced_paren_is_failure() {
    match parse_js("(1 + 2".to_string()) {
        BoundaryResult::Success(doc) => panic!("expected a failure, got: {}", doc),
        BoundaryResult::Failure(message) => assert!(!message.is_empty()),
    }
}

#[test]
fn truncated_expression_is_failure() {
    match parse_js("1 +".to_string()) {
        BoundaryResult::Success(doc) => panic!("expected a failure, got: {}", doc),
        BoundaryResult::Failure(message) => assert!(!message.is_empty()),
    }
}

#[test]
fn parse_source_valid_yields_tree() {
    let unit = load_source("let x = 1;".to_string());
    match parse_source(&unit) {
        ParseOutcome::Tree(_) => {}
        ParseOutcome::SyntaxError(message) => panic!("unexpected syntax error: {}", message),
    }
}

#[test]
fn parse_js_success_wraps_document() {
    match parse_js("1+1".to_string()) {
        BoundaryResult::Success(doc) => assert!(doc.contains("\"type\":\"Module\"")),
        BoundaryResult::Failure(message) => panic!("unexpected failure: {}", message),
    }
}
