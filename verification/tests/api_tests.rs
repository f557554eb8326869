use rs_terminal::api::{create_session, get_all_sessions, get_session, health_check,
    resize_session, terminate_session, CreateSessionRequest, ResizeTerminalRequest};
use rs_terminal::config::{DefaultShellConfig, ShellConfig, TerminalConfig, TerminalSize};
use rs_terminal::registry::SessionRegistry;

fn sample_config() -> TerminalConfig {
    TerminalConfig {
        default_shell_type: "sh".to_string(),
        session_timeout: 1800000,
        default_shell_config: DefaultShellConfig {
            size: TerminalSize { columns: 80, rows: 24 },
            working_directory: Some("/srv".to_string()),
            environment: None,
        },
        shells: vec![(
            "sh".to_string(),
            ShellConfig {
                command: vec!["/bin/sh".to_string()],
                working_directory: None,
                size: Some(TerminalSize { columns: 100, rows: 30 }),
                environment: None,
            },
        )],
    }
}

fn request(user: &str) -> CreateSessionRequest {
    CreateSessionRequest {
        user_id: user.to_string(),
        title: None,
        working_directory: None,
        shell_type: None,
        columns: None,
        rows: None,
    }
}

#[test]
fn create_session_resolves_defaults() {
    let mut registry = SessionRegistry::new();
    let config = sample_config();
    let dto = create_session(&mut registry, &config, request("alice"), 100);
    assert_eq!(dto.user_id, "alice");
    assert_eq!(dto.shell_type, "sh");
    assert_eq!(dto.status, "created");
    assert_eq!(dto.connection_type, "WebSocket");
    // size from the sh entry, working directory from the default layer
    assert_eq!(dto.columns, 100);
    assert_eq!(dto.rows, 30);
    assert_eq!(dto.working_directory, Some("/srv".to_string()));
    assert_eq!(dto.created_at, 100);
    assert!(!dto.id.is_empty());
    let stored = registry.get_session(&dto.id).expect("record expected");
    assert_eq!(stored.user_id, "alice");
}

#[test]
fn create_session_request_values_win() {
    let mut registry = SessionRegistry::new();
    let config = sample_config();
    let req = CreateSessionRequest {
        user_id: "bob".to_string(),
        title: Some("work".to_string()),
        working_directory: Some("/opt".to_string()),
        shell_type: Some("fish".to_string()),
        columns: Some(132),
        rows: Some(43),
    };
    let dto = create_session(&mut registry, &config, req, 5);
    assert_eq!(dto.shell_type, "fish");
    assert_eq!(dto.columns, 132);
    assert_eq!(dto.rows, 43);
    assert_eq!(dto.working_directory, Some("/opt".to_string()));
    assert_eq!(dto.title, Some("work".to_string()));
}

#[test]
fn create_session_generates_distinct_ids() {
    let mut registry = SessionRegistry::new();
    let config = sample_config();
    let a = create_session(&mut registry, &config, request("alice"), 1);
    let b = create_session(&mut registry, &config, request("bob"), 2);
    assert_ne!(a.id, b.id);
    assert_eq!(registry.session_count(), 2);
}

#[test]
fn get_session_reports_the_record_or_an_error() {
    let mut registry = SessionRegistry::new();
    let config = sample_config();
    let dto = create_session(&mut registry, &config, request("alice"), 1);
    let found = get_session(&registry, &dto.id).expect("record expected");
    assert_eq!(found.user_id, "alice");
    let missing = get_session(&registry, "nope").unwrap_err();
    assert!(missing.error);
    assert_eq!(missing.code, Some(404));
    assert_eq!(missing.message, "Session not found: nope");
}

#[test]
fn get_all_sessions_reports_each_record() {
    let mut registry = SessionRegistry::new();
    let config = sample_config();
    create_session(&mut registry, &config, request("alice"), 1);
    create_session(&mut registry, &config, request("bob"), 2);
    let all = get_all_sessions(&registry);
    assert_eq!(all.len(), 2);
}

#[test]
fn resize_session_applies_and_reports() {
    let mut registry = SessionRegistry::new();
    let config = sample_config();
    let dto = create_session(&mut registry, &config, request("alice"), 1);
    let resp = resize_session(
        &mut registry,
        &dto.id,
        ResizeTerminalRequest { columns: 90, rows: 28 },
        7,
    )
        .expect("resize expected to succeed");
    assert!(resp.success);
    assert_eq!(resp.columns, 90);
    assert_eq!(resp.rows, 28);
    assert_eq!(resp.session_id, dto.id);
    let stored = registry.get_session(&dto.id).unwrap();
    assert_eq!(stored.columns, 90);
    assert_eq!(stored.rows, 28);
    assert_eq!(stored.updated_at, 7);
}

#[test]
fn resize_unknown_session_reports_not_found() {
    let mut registry = SessionRegistry::new();
    let err = resize_session(
        &mut registry,
        "ghost",
        ResizeTerminalRequest { columns: 1, rows: 1 },
        7,
    )
        .unwrap_err();
    assert!(err.error);
    assert_eq!(err.code, Some(404));
    assert_eq!(err.message, "Session not found: ghost");
}

#[test]
fn terminate_session_removes_the_record() {
    let mut registry = SessionRegistry::new();
    let config = sample_config();
    let dto = create_session(&mut registry, &config, request("alice"), 1);
    let resp = terminate_session(&mut registry, &dto.id).expect("termination expected");
    assert!(resp.success);
    assert_eq!(resp.session_id, dto.id);
    assert_eq!(resp.reason, "Session terminated by API request");
    assert!(registry.get_session(&dto.id).is_none());
    let err = terminate_session(&mut registry, &dto.id).unwrap_err();
    assert_eq!(err.code, Some(404));
}

#[test]
fn health_check_reports_up() {
    let r = health_check();
    assert!(r.success);
    assert_eq!(r.message, "Health check passed");
}
