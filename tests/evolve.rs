use pagi_core::allow_list::allow_list_hash;
use pagi_core::evolve::{evolve_request, evolved_path, sanitize_skill_filename};
use pagi_core::{ActionResponse, Code};

fn response(observation: &str, success: bool) -> ActionResponse {
    ActionResponse { observation: observation.to_string(), success, error: "bad".to_string() }
}

#[test]
fn evolution_request_targets_the_evolution_skill() {
    let allow = vec!["evolve_skill_from_patch".to_string()];
    let req = evolve_request("fn x() {}".to_string(), &allow);
    assert_eq!(req.skill_name, "evolve_skill_from_patch");
    assert_eq!(req.params, vec![("patch_content".to_string(), "fn x() {}".to_string())]);
    assert_eq!(req.timeout_ms, 15000);
    assert!(!req.mock_mode);
    assert_eq!(req.depth, 0);
    assert!(req.reasoning_id.starts_with("auto-evolve-"));
    assert_eq!(req.allow_list_hash, allow_list_hash(&allow));
    assert_eq!(
        req.allow_list_hash,
        "d6c8108916a833f13e337f63d04bac63041517cebbc53afb2a3d5b645ae92728"
    );
}

#[test]
fn evolved_path_is_read_from_the_observation() {
    let ok = evolved_path(&response(" EVOLVED_PATH: src\\skills\\x.py \n", true)).unwrap();
    assert_eq!(ok, "src/skills/x.py");
    let plain = evolved_path(&response("EVOLVED_PATH:src/skills/evolved_auto_evolve_test.py", true));
    assert_eq!(plain.unwrap(), "src/skills/evolved_auto_evolve_test.py");
}

#[test]
fn evolution_without_a_path_fails() {
    let e = evolved_path(&response("EVOLVED_PATH:   ", true)).unwrap_err();
    assert_eq!(e.code(), Code::Internal);
    let e = evolved_path(&response("nothing", true)).unwrap_err();
    assert_eq!(e.message(), "evolve_skill_from_patch observation missing EVOLVED_PATH: \"nothing\"");
    let e = evolved_path(&response("EVOLVED_PATH:x", false)).unwrap_err();
    assert_eq!(e.message(), "evolve_skill_from_patch failed: bad");
}

#[test]
fn skill_file_names_are_made_safe() {
    assert_eq!(sanitize_skill_filename("../../etc/passwd"), "__etc_passwd.py");
    assert_eq!(sanitize_skill_filename(" my skill.py "), "myskill.py");
    assert_eq!(sanitize_skill_filename("a...b"), "a.b.py");
    assert_eq!(sanitize_skill_filename("!!!"), "evolved_skill.py");
    assert_eq!(sanitize_skill_filename("ok-name_1"), "ok-name_1.py");
}
