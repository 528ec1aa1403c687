use pagi_core::governor::MAX_TEXT_CHARS;
use pagi_core::{Code, RlmRequest, SafetyGovernor};

fn request(sub_query: &str, sub_context: &str, depth: i32) -> RlmRequest {
    RlmRequest {
        sub_query: sub_query.to_string(),
        sub_context: sub_context.to_string(),
        depth,
    }
}

#[test]
fn guard_rlm_rejects_depth_over_max() {
    let gov = SafetyGovernor::default();
    let result = gov.guard_rlm(request("test", "ctx", 6));
    assert!(result.is_err());
    let err = result.unwrap_err();
    assert_eq!(err.code(), Code::InvalidArgument);
}

#[test]
fn guard_rlm_allows_depth_at_max() {
    let gov = SafetyGovernor::default();
    let result = gov.guard_rlm(request("ok", "ctx", 5));
    assert!(result.is_ok());
    let guarded = result.unwrap();
    assert_eq!(guarded.depth, 5);
    assert_eq!(guarded.sub_query, "ok");
}

#[test]
fn guard_rlm_sanitizes_trim_and_length() {
    let gov = SafetyGovernor::default();
    let long: String = "a".repeat(20_000);
    let result = gov.guard_rlm(request(&format!("  {}  ", long), "ctx", 0));
    assert!(result.is_ok());
    let guarded = result.unwrap();
    assert!(guarded.sub_query.len() <= 10240);
    assert!(!guarded.sub_query.starts_with(' '));
}

#[test]
fn guard_rlm_denies_patch_core_when_hitl_gate_on() {
    let gov = SafetyGovernor::default();
    let result = gov.guard_rlm(request("patch_core apply", "", 0));
    assert!(result.is_err());
    assert_eq!(result.unwrap_err().code(), Code::PermissionDenied);
}

#[test]
fn guard_allows_patch_core_when_gate_off() {
    let gov = SafetyGovernor { max_depth: 5, hitl_gate: false };
    let guarded = gov.guard_rlm(request(" patch_core apply ", "c", 1)).unwrap();
    assert_eq!(guarded.sub_query, "patch_core apply");
}

#[test]
fn guard_rejects_negative_depth_and_one_past_max() {
    let gov = SafetyGovernor { max_depth: 3, hitl_gate: true };
    assert_eq!(gov.guard_rlm(request("q", "c", -1)).unwrap_err().code(), Code::InvalidArgument);
    assert_eq!(gov.guard_rlm(request("q", "c", 4)).unwrap_err().code(), Code::InvalidArgument);
    assert!(gov.guard_rlm(request("q", "c", 3)).is_ok());
}

#[test]
fn depth_check_comes_before_patch_core_check() {
    let gov = SafetyGovernor::default();
    let err = gov.guard_rlm(request("patch_core", "", 9)).unwrap_err();
    assert_eq!(err.code(), Code::InvalidArgument);
}

#[test]
fn sanitize_keeps_exact_limit_and_cuts_one_more() {
    let gov = SafetyGovernor::default();
    let exact = "b".repeat(MAX_TEXT_CHARS);
    assert_eq!(gov.sanitize(&exact), exact);
    let over = "b".repeat(MAX_TEXT_CHARS + 1);
    assert_eq!(gov.sanitize(&over), "b".repeat(MAX_TEXT_CHARS));
}

#[test]
fn sanitize_counts_characters_not_bytes() {
    let gov = SafetyGovernor::default();
    let text = "é".repeat(MAX_TEXT_CHARS + 5);
    let out = gov.sanitize(&text);
    assert_eq!(out.chars().count(), MAX_TEXT_CHARS);
}

#[test]
fn sanitize_trims_ascii_whitespace_only() {
    let gov = SafetyGovernor::default();
    assert_eq!(gov.sanitize("\t\r\n x y \x0c"), "x y");
    assert_eq!(gov.sanitize("\u{a0}x\u{a0}"), "\u{a0}x\u{a0}");
    assert_eq!(gov.sanitize("   "), "");
}

#[test]
fn governor_reads_its_settings() {
    let vars = vec![
        ("PAGI_MAX_RECURSION_DEPTH".to_string(), "7".to_string()),
        ("PAGI_HITL_GATE".to_string(), "off".to_string()),
    ];
    let gov = SafetyGovernor::new(&vars);
    assert_eq!(gov.max_depth, 7);
    assert!(!gov.hitl_gate);
    let defaults = SafetyGovernor::new(&Vec::new());
    assert_eq!(defaults.max_depth, 5);
    assert!(defaults.hitl_gate);
    let bad = vec![("PAGI_MAX_RECURSION_DEPTH".to_string(), "seven".to_string())];
    assert_eq!(SafetyGovernor::new(&bad).max_depth, 5);
}
