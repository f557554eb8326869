use rs_terminal::registry::SessionRegistry;
use rs_terminal::session::{ConnectionType, Session, SessionStatus};

fn session(id: &str, user: &str, now: u64) -> Session {
    Session::new(
        id.to_string(),
        user.to_string(),
        None,
        None,
        "sh".to_string(),
        80,
        24,
        ConnectionType::WebSocket,
        now,
    )
}

#[test]
fn empty_registry_has_nothing() {
    let registry = SessionRegistry::new();
    assert_eq!(registry.session_count(), 0);
    assert!(registry.get_session("missing").is_none());
}

#[test]
fn add_and_get_round_trip() {
    let mut registry = SessionRegistry::new();
    registry.add_session(session("a", "alice", 1));
    registry.add_session(session("b", "bob", 2));
    assert_eq!(registry.session_count(), 2);
    let got = registry.get_session("a").expect("record expected");
    assert_eq!(got.user_id, "alice");
    assert!(registry.get_session("c").is_none());
}

#[test]
fn add_replaces_record_with_same_id() {
    let mut registry = SessionRegistry::new();
    registry.add_session(session("a", "alice", 1));
    registry.add_session(session("a", "amelia", 2));
    assert_eq!(registry.session_count(), 1);
    let got = registry.get_session("a").expect("record expected");
    assert_eq!(got.user_id, "amelia");
}

#[test]
fn update_session_touches_only_existing_records() {
    let mut registry = SessionRegistry::new();
    registry.add_session(session("a", "alice", 1));
    let mut changed = session("a", "alice", 1);
    changed.resize(100, 30, 5);
    assert!(registry.update_session(changed));
    assert_eq!(registry.get_session("a").unwrap().columns, 100);
    assert!(!registry.update_session(session("ghost", "nobody", 1)));
    assert_eq!(registry.session_count(), 1);
}

#[test]
fn remove_session_returns_the_record() {
    let mut registry = SessionRegistry::new();
    registry.add_session(session("a", "alice", 1));
    registry.add_session(session("b", "bob", 2));
    let removed = registry.remove_session("a").expect("record expected");
    assert_eq!(removed.user_id, "alice");
    assert!(registry.get_session("a").is_none());
    assert!(registry.get_session("b").is_some());
    assert!(registry.remove_session("a").is_none());
}

#[test]
fn get_all_sessions_reports_everything() {
    let mut registry = SessionRegistry::new();
    registry.add_session(session("a", "alice", 1));
    registry.add_session(session("b", "bob", 2));
    let all = registry.get_all_sessions();
    assert_eq!(all.len(), 2);
    assert!(all.iter().any(|s| s.session_id == "a"));
    assert!(all.iter().any(|s| s.session_id == "b"));
}

#[test]
fn cleanup_clears_everything() {
    let mut registry = SessionRegistry::new();
    registry.add_session(session("a", "alice", 1));
    registry.add_session(session("b", "bob", 2));
    assert_eq!(registry.cleanup_all_sessions(), 2);
    assert_eq!(registry.session_count(), 0);
    assert!(registry.get_session("a").is_none());
}

#[test]
fn status_updates_flow_through_the_registry() {
    let mut registry = SessionRegistry::new();
    registry.add_session(session("a", "alice", 1));
    let mut s = registry.get_session("a").unwrap();
    assert!(s.set_status(SessionStatus::Active, 2));
    assert!(registry.update_session(s));
    assert!(matches!(registry.get_session("a").unwrap().status, SessionStatus::Active));
}
