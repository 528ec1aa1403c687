use pagi_core::{
    ApplyAction, ApplyEvent, ApplyRequest, ApplySession, ApplySwitches, Code, PatchRequest,
    TestSide, Watchdog,
};

fn watchdog() -> Watchdog {
    Watchdog::new("registry".to_string(), "core".to_string(), "bridge".to_string())
}

fn switches(auto_commit: bool, auto_evolve: bool) -> ApplySwitches {
    ApplySwitches { force_test_fail: false, skip_apply_test: true, auto_commit, auto_evolve }
}

fn propose(wd: &mut Watchdog, trace: &str, component: &str) -> pagi_core::PatchResponse {
    wd.propose_patch(
        PatchRequest { error_trace: trace.to_string(), component: component.to_string() },
        &Vec::new(),
    )
    .unwrap()
}

fn apply_request(patch_id: &str, approved: bool, component: &str, requires_hitl: bool) -> ApplyRequest {
    ApplyRequest {
        patch_id: patch_id.to_string(),
        approved,
        component: component.to_string(),
        requires_hitl,
    }
}

fn expect_write(action: &ApplyAction) -> (String, String) {
    match action {
        ApplyAction::WritePatch { file_name, contents } => (file_name.clone(), contents.clone()),
        other => panic!("expected a write, got {:?}", other),
    }
}

fn expect_done(action: ApplyAction) -> pagi_core::ApplyResponse {
    match action {
        ApplyAction::Finish(Ok(resp)) => resp,
        other => panic!("expected success, got {:?}", other),
    }
}

fn step(wd: &mut Watchdog, session: &mut ApplySession, event: ApplyEvent) -> ApplyAction {
    wd.apply_step(session, event)
}

#[test]
fn test_apply_patch_auto_commit() {
    let mut wd = watchdog();
    let propose_resp = propose(&mut wd, "test apply_patch auto_commit", "rust_core");
    let req = apply_request(&propose_resp.patch_id, true, "rust_core", propose_resp.requires_hitl);
    let (mut session, first) = wd.start_apply(&req, switches(false, false));
    let (file_name, contents) = expect_write(&first);
    assert_eq!(file_name, format!("patch_{}.rs", propose_resp.patch_id));
    assert_eq!(contents, propose_resp.proposed_code);
    let apply_resp = expect_done(step(&mut wd, &mut session, ApplyEvent::PatchWritten));
    assert!(apply_resp.success);
    assert!(
        apply_resp.commit_hash.is_empty(),
        "commit_hash should be empty when PAGI_AUTO_COMMIT_SELF_PATCH=false"
    );
    assert!(wd.pending_patch(&propose_resp.patch_id).is_none());
}

#[test]
fn test_apply_patch_auto_commit_when_enabled() {
    let mut wd = watchdog();
    let propose_resp = propose(&mut wd, "test apply_patch auto_commit when enabled", "rust_core");
    let req = apply_request(&propose_resp.patch_id, true, "rust_core", propose_resp.requires_hitl);
    let (mut session, first) = wd.start_apply(&req, switches(true, false));
    expect_write(&first);
    match step(&mut wd, &mut session, ApplyEvent::PatchWritten) {
        ApplyAction::CommitPatch { rel_path, message } => {
            assert_eq!(rel_path, format!("patches/patch_{}.rs", propose_resp.patch_id));
            assert!(message.starts_with("Self-patch apply"));
            assert_eq!(message, format!("Self-patch apply {} for rust_core", propose_resp.patch_id));
        }
        other => panic!("expected a commit, got {:?}", other),
    }
    let hash = "0123456789abcdef0123456789abcdef01234567".to_string();
    let apply_resp = expect_done(step(&mut wd, &mut session, ApplyEvent::Committed(hash.clone())));
    assert!(apply_resp.success);
    assert!(
        !apply_resp.commit_hash.is_empty(),
        "commit_hash should be set when PAGI_AUTO_COMMIT_SELF_PATCH=true (git commit performed)"
    );
    assert_eq!(apply_resp.commit_hash, hash);
}

#[test]
fn test_apply_patch_auto_evolve() {
    let mut wd = watchdog();
    let propose_resp = propose(&mut wd, "test auto evolve", "python_skill");
    assert!(!propose_resp.requires_hitl);
    let req = apply_request(&propose_resp.patch_id, true, "python_skill", propose_resp.requires_hitl);
    let (mut session, first) = wd.start_apply(&req, switches(true, true));
    let (file_name, _) = expect_write(&first);
    assert_eq!(file_name, format!("patch_{}.py", propose_resp.patch_id));
    assert!(matches!(
        step(&mut wd, &mut session, ApplyEvent::PatchWritten),
        ApplyAction::CommitPatch { .. }
    ));
    let hash = "89abcdef0123456789abcdef0123456789abcdef".to_string();
    match step(&mut wd, &mut session, ApplyEvent::Committed(hash.clone())) {
        ApplyAction::Evolve { file_name } => {
            assert_eq!(file_name, format!("patch_{}.py", propose_resp.patch_id))
        }
        other => panic!("expected evolution, got {:?}", other),
    }
    let apply_resp = expect_done(step(&mut wd, &mut session, ApplyEvent::EvolveFinished));
    assert!(apply_resp.success, "apply_patch should succeed");
    assert!(
        !apply_resp.commit_hash.is_empty(),
        "expected registry commit_hash when auto-commit enabled"
    );
}

#[test]
fn evolution_failure_does_not_fail_the_apply() {
    let mut wd = watchdog();
    let p = propose(&mut wd, "trace", "python_skill");
    let (mut session, _) =
        wd.start_apply(&apply_request(&p.patch_id, false, "python_skill", false), switches(true, true));
    step(&mut wd, &mut session, ApplyEvent::PatchWritten);
    step(&mut wd, &mut session, ApplyEvent::Committed("c0ffee".to_string()));
    let resp = expect_done(step(&mut wd, &mut session, ApplyEvent::Failed("no repo".to_string())));
    assert_eq!(resp.commit_hash, "c0ffee");
}

#[test]
fn core_patch_without_approval_or_flag_is_denied() {
    let mut wd = watchdog();
    let p = propose(&mut wd, "trace", "rust_core");
    assert!(p.requires_hitl);
    let (mut session, first) =
        wd.start_apply(&apply_request(&p.patch_id, false, "rust_core", true), switches(true, false));
    assert!(matches!(first, ApplyAction::CheckApproveFlag));
    match step(&mut wd, &mut session, ApplyEvent::FlagChecked(false)) {
        ApplyAction::Finish(Err(e)) => assert_eq!(e.code(), Code::PermissionDenied),
        other => panic!("expected a denial, got {:?}", other),
    }
    assert!(wd.pending_patch(&p.patch_id).is_some());
}

#[test]
fn approval_flag_admits_core_patch() {
    let mut wd = watchdog();
    let p = propose(&mut wd, "trace", "rust_core");
    let sw = ApplySwitches { force_test_fail: false, skip_apply_test: false, auto_commit: false, auto_evolve: false };
    let (mut session, _) = wd.start_apply(&apply_request(&p.patch_id, false, "rust_core", true), sw);
    match step(&mut wd, &mut session, ApplyEvent::FlagChecked(true)) {
        ApplyAction::RunTests(side) => assert_eq!(side, TestSide::Core),
        other => panic!("expected tests, got {:?}", other),
    }
    match step(&mut wd, &mut session, ApplyEvent::TestsFinished(false)) {
        ApplyAction::Finish(Err(e)) => {
            assert_eq!(e.code(), Code::Internal);
            assert_eq!(e.message(), "Patch test failed; apply aborted");
        }
        other => panic!("expected a test failure, got {:?}", other),
    }
}

#[test]
fn forced_failure_stops_before_tests() {
    let mut wd = watchdog();
    let p = propose(&mut wd, "trace", "rust_core");
    let sw = ApplySwitches { force_test_fail: true, skip_apply_test: true, auto_commit: true, auto_evolve: false };
    let (_, first) = wd.start_apply(&apply_request(&p.patch_id, true, "rust_core", true), sw);
    match first {
        ApplyAction::Finish(Err(e)) => assert_eq!(e.code(), Code::Internal),
        other => panic!("expected a forced failure, got {:?}", other),
    }
}

#[test]
fn unknown_or_used_patch_id_is_not_found() {
    let mut wd = watchdog();
    let (_, first) = wd.start_apply(&apply_request("nope", true, "rust_core", false), switches(false, false));
    match first {
        ApplyAction::Finish(Err(e)) => assert_eq!(e.code(), Code::NotFound),
        other => panic!("expected not-found, got {:?}", other),
    }
    let p = propose(&mut wd, "trace", "python_skill");
    let req = apply_request(&p.patch_id, false, "python_skill", false);
    let (mut session, _) = wd.start_apply(&req, switches(false, false));
    expect_done(step(&mut wd, &mut session, ApplyEvent::PatchWritten));
    match wd.start_apply(&req, switches(false, false)).1 {
        ApplyAction::Finish(Err(e)) => assert_eq!(e.code(), Code::NotFound),
        other => panic!("expected not-found, got {:?}", other),
    }
}

#[test]
fn write_failure_is_internal() {
    let mut wd = watchdog();
    let p = propose(&mut wd, "trace", "python_skill");
    let (mut session, _) =
        wd.start_apply(&apply_request(&p.patch_id, false, "python_skill", false), switches(true, false));
    match step(&mut wd, &mut session, ApplyEvent::Failed("write patch file: denied".to_string())) {
        ApplyAction::Finish(Err(e)) => {
            assert_eq!(e.code(), Code::Internal);
            assert_eq!(e.message(), "write patch file: denied");
        }
        other => panic!("expected an internal error, got {:?}", other),
    }
}

#[test]
fn proposals_get_distinct_ids_and_stable_code() {
    let mut wd = watchdog();
    let a = propose(&mut wd, "first line\r\nsecond", "rust_core");
    let b = propose(&mut wd, "first line\r\nsecond", "rust_core");
    assert_ne!(a.patch_id, b.patch_id);
    assert_eq!(a.proposed_code, "// Generic fix for: first line\n// Based on prior hits: []");
    assert_eq!(a.proposed_code, b.proposed_code);
}

#[test]
fn proposal_lists_two_prior_snippets() {
    let mut wd = watchdog();
    let snippets = vec!["a\"b".to_string(), "c".to_string(), "d".to_string()];
    let long = "x".repeat(300);
    let r = wd
        .propose_patch(
            PatchRequest { error_trace: long.clone(), component: "python_skill".to_string() },
            &snippets,
        )
        .unwrap();
    assert_eq!(
        r.proposed_code,
        format!("// Generic fix for: {}\n// Based on prior hits: [\"a\\\"b\", \"c\"]", "x".repeat(200))
    );
    assert!(!r.requires_hitl);
    let pending = wd.pending_patch(&r.patch_id).unwrap();
    assert_eq!(pending.component, "python_skill");
    assert_eq!(pending.proposed_code, r.proposed_code);
}

#[test]
fn legacy_heal_proposes_nothing() {
    let wd = watchdog();
    assert_eq!(wd.propose_heal("trace"), (String::new(), false));
}

#[test]
fn pending_id_cannot_be_proposed_twice() {
    let mut wd = watchdog();
    let req = || PatchRequest { error_trace: "t".to_string(), component: "rust_core".to_string() };
    let first = wd.propose_patch_with_id(req(), &Vec::new(), "id-1".to_string()).unwrap();
    assert_eq!(first.patch_id, "id-1");
    assert!(first.requires_hitl);
    let err = wd.propose_patch_with_id(req(), &Vec::new(), "id-1".to_string()).unwrap_err();
    assert_eq!(err.code(), Code::Internal);
    assert!(wd.propose_patch_with_id(req(), &Vec::new(), "id-2".to_string()).is_ok());
}

#[test]
fn inconsistent_session_ends_with_internal_error() {
    let mut wd = watchdog();
    let mut session = ApplySession {
        patch_id: "x".to_string(),
        proposed_code: "code".to_string(),
        requires_hitl: true,
        component: "rust_core".to_string(),
        approved: false,
        tests_passed: false,
        switches: switches(true, false),
        phase: pagi_core::ApplyPhase::AwaitWrite,
        commit_hash: String::new(),
    };
    assert!(!session.is_wf());
    match wd.apply_step(&mut session, ApplyEvent::PatchWritten) {
        ApplyAction::Finish(Err(e)) => assert_eq!(e.code(), Code::Internal),
        other => panic!("expected an internal error, got {:?}", other),
    }
    assert!(session.is_wf());
}

#[test]
fn fresh_store_proposal_succeeds_with_uuid_v4() {
    let mut wd = watchdog();
    let r = wd
        .propose_patch(
            PatchRequest { error_trace: "x".to_string(), component: "rust_core".to_string() },
            &Vec::new(),
        )
        .unwrap();
    assert_eq!(r.proposed_code, "// Generic fix for: x\n// Based on prior hits: []");
    assert!(r.requires_hitl);
    let id: Vec<char> = r.patch_id.chars().collect();
    assert_eq!(id.len(), 36);
    for (i, c) in id.iter().enumerate() {
        if [8, 13, 18, 23].contains(&i) {
            assert_eq!(*c, '-');
        } else {
            assert!(c.is_ascii_digit() || ('a'..='f').contains(c));
        }
    }
    assert_eq!(id[14], '4');
    assert!(['8', '9', 'a', 'b'].contains(&id[19]));
    assert_eq!(wd.registry_path(), "registry");
    assert_eq!(wd.core_dir(), "core");
    assert_eq!(wd.bridge_dir(), "bridge");
}
