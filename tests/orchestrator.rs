use pagi_core::orchestrator::{
    delegate_rlm, poll_approval, PollDecision, simulated_apply_request, simulated_patch_request, simulation_polls,
    watch_should_commit,
};
use pagi_core::{Code, PatchResponse, RlmRequest, SafetyGovernor};

#[test]
fn delegation_reports_convergence() {
    let gov = SafetyGovernor::default();
    let r = delegate_rlm(&gov, RlmRequest { sub_query: "q".to_string(), sub_context: String::new(), depth: 5 })
        .unwrap();
    assert_eq!(r.summary, "Generic delegation processed");
    assert!(r.converged);
    let e = delegate_rlm(&gov, RlmRequest { sub_query: "patch_core apply".to_string(), sub_context: String::new(), depth: 0 })
        .unwrap_err();
    assert_eq!(e.code(), Code::PermissionDenied);
}

#[test]
fn heal_simulation_requests() {
    let p = simulated_patch_request();
    assert_eq!(p.error_trace, "Simulated Rust error for verification");
    assert_eq!(p.component, "rust_core");
    assert!(simulation_polls(true, false));
    assert!(!simulation_polls(true, true));
    assert!(!simulation_polls(false, false));
    let proposed = PatchResponse { patch_id: "id".to_string(), proposed_code: String::new(), requires_hitl: true };
    let a = simulated_apply_request(&proposed, false);
    assert_eq!(a.patch_id, "id");
    assert!(!a.approved && a.requires_hitl);
    assert_eq!(a.component, "rust_core");
}

#[test]
fn watcher_commits_only_changes() {
    assert!(watch_should_commit(None, "t1"));
    assert!(watch_should_commit(Some("t0"), "t1"));
    assert!(!watch_should_commit(Some("t1"), "t1"));
}

#[test]
fn approval_poll_decisions() {
    assert_eq!(poll_approval(true, false), PollDecision::Approved);
    assert_eq!(poll_approval(false, true), PollDecision::Wait);
    assert_eq!(poll_approval(false, false), PollDecision::GiveUp);
}
