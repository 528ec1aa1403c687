use pagi_core::allow_list::allow_list_hash;
use pagi_core::dispatch::{
    action_log_line, finish_dispatch, json_object_from, params_json, plan_dispatch, route_action,
};
use pagi_core::{ActionRequest, ActionRoute, ChildOutcome, Code};

fn action(skill: &str, mock_mode: bool, timeout_ms: u32) -> ActionRequest {
    ActionRequest {
        skill_name: skill.to_string(),
        params: Vec::new(),
        depth: 0,
        reasoning_id: "r1".to_string(),
        mock_mode,
        allow_list_hash: String::new(),
        timeout_ms,
    }
}

fn names(list: &[&str]) -> Vec<String> {
    list.iter().map(|s| s.to_string()).collect()
}

#[test]
fn test_execute_action_mock() {
    let req = action("peek_file", true, 0);
    let route = route_action(5, true, false, &req).unwrap();
    match route {
        ActionRoute::Respond(inner) => {
            assert!(inner.success);
            assert!(inner.observation.contains("mock executed"));
            assert!(inner.observation.contains("peek_file"));
        }
        ActionRoute::Dispatch => panic!("expected a mock response"),
    }
}

#[test]
fn test_execute_action_fallback_mock_when_real_disabled() {
    let req = action("unknown_skill", false, 0);
    let route = route_action(5, false, false, &req).unwrap();
    match route {
        ActionRoute::Respond(inner) => {
            assert!(inner.success);
            assert!(inner.observation.contains("mock executed"));
            assert!(inner.observation.contains("unknown_skill"));
            assert_eq!(inner.observation, "Observation: mock executed skill=unknown_skill");
            assert_eq!(inner.error, "");
        }
        ActionRoute::Dispatch => panic!("expected a mock response"),
    }
}

#[test]
fn explicit_mock_wins_over_real_dispatch() {
    let req = action("peek_file", true, 0);
    match route_action(5, false, true, &req).unwrap() {
        ActionRoute::Respond(inner) => {
            assert_eq!(inner.observation, "Observation: mock executed skill=peek_file");
            assert!(inner.success);
            assert_eq!(inner.error, "");
        }
        ActionRoute::Dispatch => panic!("expected a mock response"),
    }
}

#[test]
fn real_dispatch_only_when_enabled() {
    let req = action("peek_file", false, 0);
    assert!(matches!(route_action(5, false, true, &req).unwrap(), ActionRoute::Dispatch));
    let mut deep = action("peek_file", false, 0);
    deep.depth = 6;
    assert_eq!(route_action(5, false, true, &deep).unwrap_err().code(), Code::InvalidArgument);
}

#[test]
fn test_execute_action_unknown_skill() {
    let allow = names(&["peek_file"]);
    let req = action("skill_not_in_registry", false, 5000);
    let result = plan_dispatch(&allow, &req);
    assert!(result.is_err());
    let err = result.unwrap_err();
    assert_eq!(err.code(), Code::PermissionDenied);
    assert!(err.message().contains("Skill not in registry"));
}

#[test]
fn test_execute_action_timeout() {
    let allow = names(&["peek_file", "sleep"]);
    let req = action("sleep", false, 50);
    let plan = plan_dispatch(&allow, &req).unwrap();
    assert_eq!(plan.timeout_ms, 50);
    let resp = finish_dispatch(ChildOutcome::TimedOut);
    assert!(!resp.success);
    assert!(resp.error.contains("Execution timed out"));
    assert_eq!(resp.observation, "");
}

#[test]
fn zero_timeout_means_default() {
    let allow = names(&["peek_file"]);
    let plan = plan_dispatch(&allow, &action("peek_file", false, 0)).unwrap();
    assert_eq!(plan.timeout_ms, 5000);
    assert_eq!(plan.skill_name, "peek_file");
    assert_eq!(plan.reasoning_id, "r1");
    assert_eq!(plan.params_json, "{}");
}

#[test]
fn stale_allow_list_hash_is_refused() {
    let allow = names(&["peek_file"]);
    let mut req = action("peek_file", false, 0);
    req.allow_list_hash = "00".to_string();
    let err = plan_dispatch(&allow, &req).unwrap_err();
    assert_eq!(err.code(), Code::InvalidArgument);
    assert_eq!(err.message(), "Allow-list mismatch");
    req.allow_list_hash = allow_list_hash(&allow);
    assert!(plan_dispatch(&allow, &req).is_ok());
}

#[test]
fn params_become_one_json_object() {
    let params = vec![
        ("path".to_string(), "a \"b\"".to_string()),
        ("n".to_string(), "1".to_string()),
    ];
    assert_eq!(params_json(&params), "{\"path\":\"a \\\"b\\\"\",\"n\":\"1\"}");
    assert_eq!(params_json(&Vec::new()), "{}");
}

#[test]
fn exit_observes_trimmed_stdout() {
    let resp = finish_dispatch(ChildOutcome::Exited {
        stdout: b"  ok\n".to_vec(),
        stderr: Vec::new(),
        success: true,
        code: Some(0),
    });
    assert_eq!(resp.observation, "ok");
    assert!(resp.success);
    assert_eq!(resp.error, "");
}

#[test]
fn failed_exit_reports_stderr_or_code() {
    let with_stderr = finish_dispatch(ChildOutcome::Exited {
        stdout: b"partial".to_vec(),
        stderr: b" boom \n".to_vec(),
        success: false,
        code: Some(4),
    });
    assert_eq!(with_stderr.error, "boom");
    assert_eq!(with_stderr.observation, "partial");
    assert!(!with_stderr.success);
    let blank = finish_dispatch(ChildOutcome::Exited {
        stdout: Vec::new(),
        stderr: b"   ".to_vec(),
        success: false,
        code: Some(-12),
    });
    assert_eq!(blank.error, "exit code Some(-12)");
    let killed = finish_dispatch(ChildOutcome::Exited {
        stdout: Vec::new(),
        stderr: Vec::new(),
        success: false,
        code: None,
    });
    assert_eq!(killed.error, "exit code None");
}

#[test]
fn log_line_names_observation_or_error() {
    let ok = finish_dispatch(ChildOutcome::Exited {
        stdout: b"seen".to_vec(),
        stderr: Vec::new(),
        success: true,
        code: Some(0),
    });
    assert_eq!(action_log_line("r9", "peek_file", &ok), "ACTION r9 peek_file -> seen");
    let timed_out = finish_dispatch(ChildOutcome::TimedOut);
    assert_eq!(
        action_log_line("r9", "sleep", &timed_out),
        "ACTION r9 sleep -> Execution timed out"
    );
}

#[test]
fn encoded_members_are_framed_in_order() {
    let enc = vec![
        ("\"b\"".to_string(), "\"2\"".to_string()),
        ("\"a\"".to_string(), "\"1\"".to_string()),
    ];
    assert_eq!(json_object_from(&enc), "{\"b\":\"2\",\"a\":\"1\"}");
    assert_eq!(json_object_from(&Vec::new()), "{}");
}

#[test]
fn params_json_escapes_control_characters() {
    let params = vec![("k\n".to_string(), "\u{1}\\\t".to_string())];
    assert_eq!(params_json(&params), "{\"k\\n\":\"\\u0001\\\\\\t\"}");
}
