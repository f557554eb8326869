use rs_terminal::session::{ConnectionType, Session, SessionStatus};

fn fresh_session(now: u64) -> Session {
    Session::new(
        "sid-1".to_string(),
        "alice".to_string(),
        Some("work".to_string()),
        None,
        "sh".to_string(),
        80,
        24,
        ConnectionType::WebSocket,
        now,
    )
}

#[test]
fn new_session_starts_created_with_equal_timestamps() {
    let s = fresh_session(1000);
    assert_eq!(s.session_id, "sid-1");
    assert_eq!(s.user_id, "alice");
    assert!(matches!(s.status, SessionStatus::Created));
    assert_eq!(s.created_at, 1000);
    assert_eq!(s.updated_at, 1000);
    assert_eq!(s.columns, 80);
    assert_eq!(s.rows, 24);
}

#[test]
fn resize_updates_size_and_timestamp() {
    let mut s = fresh_session(1000);
    s.resize(132, 43, 1005);
    assert_eq!(s.columns, 132);
    assert_eq!(s.rows, 43);
    assert_eq!(s.updated_at, 1005);
    assert!(s.updated_at >= s.created_at);
}

#[test]
fn updated_at_never_falls_behind_created_at() {
    // even when the clock steps backwards, the record stays consistent
    let mut s = fresh_session(1000);
    s.resize(10, 10, 900);
    assert_eq!(s.updated_at, 1000);
    assert!(s.updated_at >= s.created_at);
    let applied = s.set_status(SessionStatus::Active, 800);
    assert!(applied);
    assert!(s.updated_at >= s.created_at);
}

#[test]
fn status_walks_forward_through_lifecycle() {
    let mut s = fresh_session(1000);
    assert!(s.set_status(SessionStatus::Active, 1001));
    assert!(matches!(s.status, SessionStatus::Active));
    assert!(s.set_status(SessionStatus::Disconnected, 1002));
    assert!(s.set_status(SessionStatus::Active, 1003));
    assert!(s.set_status(SessionStatus::Terminated, 1004));
    assert!(matches!(s.status, SessionStatus::Terminated));
    assert!(s.updated_at >= s.created_at);
}

#[test]
fn disconnected_is_only_reachable_from_active() {
    let mut s = fresh_session(1000);
    assert!(!s.set_status(SessionStatus::Disconnected, 1001));
    assert!(matches!(s.status, SessionStatus::Created));
    assert_eq!(s.updated_at, 1000);
}

#[test]
fn disconnected_can_terminate() {
    let mut s = fresh_session(1000);
    assert!(s.set_status(SessionStatus::Active, 1001));
    assert!(s.set_status(SessionStatus::Disconnected, 1002));
    assert!(s.set_status(SessionStatus::Terminated, 1003));
}

#[test]
fn nothing_leaves_terminated() {
    let mut s = fresh_session(1000);
    assert!(s.set_status(SessionStatus::Active, 1001));
    assert!(s.set_status(SessionStatus::Terminated, 1002));
    assert!(!s.set_status(SessionStatus::Active, 1003));
    assert!(!s.set_status(SessionStatus::Created, 1004));
    assert!(!s.set_status(SessionStatus::Disconnected, 1005));
    assert!(matches!(s.status, SessionStatus::Terminated));
}

#[test]
fn created_cannot_jump_to_terminated() {
    let mut s = fresh_session(1000);
    assert!(!s.set_status(SessionStatus::Terminated, 1001));
    assert!(matches!(s.status, SessionStatus::Created));
}

#[test]
fn session_clone_copies_every_field() {
    let s = fresh_session(42);
    let c = s.clone();
    assert_eq!(c.session_id, s.session_id);
    assert_eq!(c.user_id, s.user_id);
    assert_eq!(c.title, s.title);
    assert_eq!(c.columns, s.columns);
    assert_eq!(c.rows, s.rows);
    assert_eq!(c.created_at, s.created_at);
    assert_eq!(c.updated_at, s.updated_at);
}
