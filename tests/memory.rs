use pagi_core::memory::{check_upsert, document_id, hit_snippet, plan_search};
use pagi_core::{Code, MemoryLayers, PayloadField, PointKey};

#[test]
fn working_layer_sets_then_gets() {
    let mut m = MemoryLayers::new();
    assert_eq!(m.access(2, "k", None), (String::new(), true));
    assert_eq!(m.access(2, "k", Some("a")), ("a".to_string(), true));
    assert_eq!(m.access(2, "k", None), ("a".to_string(), true));
    assert_eq!(m.access(1, "k", None), (String::new(), true));
}

#[test]
fn sensory_layer_keeps_text() {
    let mut m = MemoryLayers::new();
    assert_eq!(m.access(1, "k", Some("é€")), ("é€".to_string(), true));
    assert_eq!(m.access(1, "k", Some("b")), ("b".to_string(), true));
    assert_eq!(m.access(2, "k", None), (String::new(), true));
}

#[test]
fn other_layers_are_stubs() {
    let mut m = MemoryLayers::new();
    assert_eq!(m.access(3, "k", Some("v")), (String::new(), true));
    assert_eq!(m.access(0, "k", None), (String::new(), true));
}

#[test]
fn empty_value_only_reads() {
    let mut m = MemoryLayers::new();
    m.access_request(2, "k", "x");
    assert_eq!(m.access_request(2, "k", ""), ("x".to_string(), true));
}

#[test]
fn search_limit_is_clamped() {
    let p = plan_search(true, 0, 3, 3).unwrap();
    assert_eq!(p.limit, 1);
    assert!(p.use_query_vector);
    let p = plan_search(true, 500, 2, 3).unwrap();
    assert_eq!(p.limit, 100);
    assert!(!p.use_query_vector);
    assert_eq!(plan_search(true, 5, 0, 1536).unwrap().limit, 5);
    assert!(plan_search(false, 5, 3, 3).is_none());
}

#[test]
fn hits_name_their_documents_and_snippets() {
    assert_eq!(document_id(&PointKey::Num(42)), "42");
    assert_eq!(document_id(&PointKey::Uuid("u-1".to_string())), "u-1");
    assert_eq!(document_id(&PointKey::Missing), "");
    let text = |s: &str| PayloadField::Text(s.to_string());
    assert_eq!(hit_snippet(&text("c"), &text("s")), "c");
    assert_eq!(hit_snippet(&PayloadField::Absent, &text("s")), "s");
    assert_eq!(hit_snippet(&PayloadField::Other, &text("s")), "Snippet stub");
    assert_eq!(hit_snippet(&PayloadField::Absent, &PayloadField::Absent), "Snippet stub");
}

#[test]
fn upsert_needs_the_backend() {
    assert!(check_upsert(true).is_ok());
    assert_eq!(check_upsert(false).unwrap_err().code(), Code::FailedPrecondition);
}
