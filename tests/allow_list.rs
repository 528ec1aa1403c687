use pagi_core::allow_list::{
    allow_list_hash, resolve_allow_list, skill_name_of, skill_names, sort_names,
};

fn names(list: &[&str]) -> Vec<String> {
    list.iter().map(|s| s.to_string()).collect()
}

#[test]
fn hash_matches_sha256_of_lines() {
    assert_eq!(
        allow_list_hash(&names(&["peek_file"])),
        "770774c360b7224d860589b2384fb858922e8fc91e74d8b69873859ca5826bcb"
    );
    assert_eq!(
        allow_list_hash(&names(&["peek_file", "sleep"])),
        "7f8cd66043e8720260942f05560087f96c763b55544042711e0b0894ccabffe4"
    );
    assert_eq!(
        allow_list_hash(&Vec::new()),
        "e3b0c44298fc1c149afbf4c8996fb92427ae41e4649b934ca495991b7852b855"
    );
}

#[test]
fn listing_order_does_not_change_the_hash() {
    let a = skill_names(&names(&["sleep.py", "peek_file.py", "__init__.py"]));
    let b = skill_names(&names(&["__init__.py", "peek_file.py", "sleep.py", "notes.txt"]));
    assert_eq!(a, vec!["peek_file".to_string(), "sleep".to_string()]);
    assert_eq!(a, b);
    assert_eq!(allow_list_hash(&a), allow_list_hash(&b));
}

#[test]
fn only_python_files_other_than_init_are_skills() {
    assert_eq!(skill_name_of("peek_file.py"), Some("peek_file".to_string()));
    assert_eq!(skill_name_of("__init__.py"), None);
    assert_eq!(skill_name_of("readme.md"), None);
    assert_eq!(skill_name_of(".py"), Some(String::new()));
    assert_eq!(skill_name_of("x.pyc"), None);
}

#[test]
fn sorting_is_by_code_point() {
    let sorted = sort_names(&names(&["b", "B", "a", "ab", "", "a"]));
    assert_eq!(sorted, names(&["", "B", "a", "a", "ab", "b"]));
}

#[test]
fn hash_is_64_lower_hex_digits() {
    let h = allow_list_hash(&names(&["a", "b"]));
    assert_eq!(h.len(), 64);
    assert!(h.chars().all(|c| c.is_ascii_digit() || ('a'..='f').contains(&c)));
}

#[test]
fn head_listing_wins_over_disk_when_it_has_skills() {
    let head = names(&["b.py", "a.py"]);
    let disk = names(&["c.py"]);
    assert_eq!(resolve_allow_list(&head, &disk), names(&["a", "b"]));
    assert_eq!(resolve_allow_list(&names(&["__init__.py"]), &disk), names(&["c"]));
    assert_eq!(resolve_allow_list(&Vec::new(), &Vec::new()), Vec::<String>::new());
}
