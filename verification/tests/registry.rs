use whep_gateway::registry::{SessionRegistry, ViewerSession};

fn session(id: &str, connection: u32) -> ViewerSession<u32> {
    ViewerSession { id: id.to_string(), connection, stream_name: "cam1".to_string() }
}

#[test]
fn new_registry_is_empty() {
    let registry: SessionRegistry<u32> = SessionRegistry::new();
    assert!(registry.enumerate().is_empty());
    assert!(!registry.contains("a"));
    assert!(registry.get("a").is_none());
}

#[test]
fn inserted_session_is_found_under_its_id() {
    let mut registry = SessionRegistry::new();
    assert_eq!(registry.insert(session("a", 1)), None);
    assert!(registry.contains("a"));
    assert_eq!(registry.get("a"), Some(&session("a", 1)));
    assert!(!registry.contains("A"));
    assert!(!registry.contains(""));
}

#[test]
fn insert_under_a_live_id_hands_the_old_session_back() {
    let mut registry = SessionRegistry::new();
    registry.insert(session("a", 1));
    registry.insert(session("b", 2));
    assert_eq!(registry.insert(session("a", 3)), Some(session("a", 1)));
    assert_eq!(registry.enumerate().len(), 2);
    assert_eq!(registry.get("a"), Some(&session("a", 3)));
    assert_eq!(registry.get("b"), Some(&session("b", 2)));
}

#[test]
fn removed_session_is_handed_back_and_gone() {
    let mut registry = SessionRegistry::new();
    registry.insert(session("a", 1));
    registry.insert(session("b", 2));
    registry.insert(session("c", 3));
    assert_eq!(registry.remove("b"), Some(session("b", 2)));
    assert!(!registry.contains("b"));
    assert!(registry.contains("a"));
    assert!(registry.contains("c"));
    assert_eq!(registry.remove("b"), None);
    assert_eq!(registry.enumerate().len(), 2);
}

#[test]
fn remove_of_an_unknown_id_changes_nothing() {
    let mut registry = SessionRegistry::new();
    registry.insert(session("a", 1));
    assert_eq!(registry.remove("zz"), None);
    assert_eq!(registry.enumerate(), &[session("a", 1)]);
}

#[test]
fn enumerate_lists_each_session_once() {
    let mut registry = SessionRegistry::new();
    registry.insert(session("a", 1));
    registry.insert(session("b", 2));
    registry.insert(session("a", 3));
    let mut ids: Vec<String> = registry.enumerate().iter().map(|s| s.id.clone()).collect();
    ids.sort();
    assert_eq!(ids, vec!["a".to_string(), "b".to_string()]);
}
