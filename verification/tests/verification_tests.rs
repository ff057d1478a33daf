use gba_core::verification::{parse_verification_response, status_verdict, text_verdict, verification_json};
use gba_core::{GbaConfig, VerificationFields, VerificationResult, Verifier};

#[test]
fn test_verification_result_debug() {
    let result = VerificationResult {
        passed: true,
        details: "All tests passed".to_string(),
        summary: Some("OK".to_string()),
    };
    let debug_str = format!("{:?}", result);
    assert!(debug_str.contains("passed"));
}

#[test]
fn test_verification_result_equality() {
    let result1 = VerificationResult { passed: true, details: "OK".to_string(), summary: None };
    let result2 = VerificationResult { passed: true, details: "OK".to_string(), summary: None };
    assert_eq!(result1, result2);
}

#[test]
fn test_text_response_is_lowercased() {
    let r = parse_verification_response("ALL TESTS PASSED", None);
    assert!(r.passed);
    assert_eq!(r.details, "ALL TESTS PASSED");
    assert_eq!(r.summary, None);
}

#[test]
fn test_text_response_failure_wins() {
    let r = parse_verification_response("Build succeeded but 2 tests FAILED", None);
    assert!(!r.passed);
    assert!(!parse_verification_response("nothing to report", None).passed);
    assert!(parse_verification_response("The build succeeded", None).passed);
}

#[test]
fn test_verdicts() {
    assert!(text_verdict("verification complete"));
    assert!(!text_verdict("error: passed nothing"));
    assert!(status_verdict("success"));
    assert!(!status_verdict("failed"));
}

#[test]
fn test_json_report_fields() {
    let f = VerificationFields { passed: None, status: Some("PASSED".to_string()), details: None, summary: Some("s".to_string()) };
    let r = parse_verification_response("{\"status\":\"PASSED\"}", Some(f));
    assert!(r.passed);
    assert_eq!(r.details, "{\"status\":\"PASSED\"}");
    assert_eq!(r.summary, Some("s".to_string()));

    let f = VerificationFields { passed: Some(false), status: Some("passed".to_string()), details: Some("d".to_string()), summary: None };
    let r = parse_verification_response("x", Some(f));
    assert!(!r.passed);
    assert_eq!(r.details, "d");

    let f = VerificationFields { passed: None, status: None, details: None, summary: None };
    assert!(!parse_verification_response("x", Some(f)).passed);
}

#[test]
fn test_verification_json_slice() {
    assert_eq!(verification_json("Result: {\"passed\": true} end").as_deref(), Some("{\"passed\": true}"));
    assert_eq!(verification_json("no braces"), None);
}

#[test]
fn test_verifier_context() {
    let config = GbaConfig::new("/w");
    let v = Verifier::new(&config, "0001").with_review_issues(vec!["a: b".to_string()]);
    assert_eq!(v.feature_id(), "0001");
    assert_eq!(v.session().max_turns, 10);
    let ctx = v.verify_context("plan");
    assert_eq!(ctx.working_dir, "/w");
    assert_eq!(ctx.feature_slug, "0001");
    assert_eq!(ctx.feature_id, "0001");
    assert_eq!(ctx.verification_plan, "plan");
    assert_eq!(ctx.review_issues, vec!["a: b".to_string()]);
}
