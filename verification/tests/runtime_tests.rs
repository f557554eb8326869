use rs_terminal::config::{DefaultShellConfig, TerminalConfig, TerminalSize};
use rs_terminal::message_handler::MessageHandler;
use rs_terminal::protocol::{ConnectionType, MemoryConnection, TerminalConnection,
    TerminalMessage};
use rs_terminal::pty::{MockPty, Pty};
use rs_terminal::registry::SessionRegistry;
use rs_terminal::runtime::{cleanup_session_resources, handle_terminal_session,
    initialize_session, pump_decision, run_session_loop, PumpEvent, PumpStep, RuntimePhase};
use rs_terminal::session::{Session, SessionStatus};

fn bare_config() -> TerminalConfig {
    TerminalConfig {
        default_shell_type: "sh".to_string(),
        session_timeout: 1800000,
        default_shell_config: DefaultShellConfig {
            size: TerminalSize { columns: 80, rows: 24 },
            working_directory: None,
            environment: None,
        },
        shells: Vec::new(),
    }
}

fn connection(id: &str, script: Vec<TerminalMessage>) -> MemoryConnection {
    MemoryConnection::new(id.to_string(), ConnectionType::WebSocket, script)
}

fn text(s: &str) -> TerminalMessage {
    TerminalMessage::Text(s.to_string())
}

#[test]
fn messages_arrive_at_terminal_in_order() {
    let handler = MessageHandler::new();
    let mut conn = connection(
        "c1",
        vec![text("one\n"), text("two\n"), text("three\n"), TerminalMessage::Close],
    );
    let mut pty = MockPty::new();
    run_session_loop(&mut conn, &mut pty, &handler, "c1");
    assert_eq!(
        pty.written,
        vec![b"one\n".to_vec(), b"two\n".to_vec(), b"three\n".to_vec()]
    );
}

#[test]
fn terminal_output_is_forwarded_in_order_as_text() {
    let handler = MessageHandler::new();
    let mut conn = connection("c1", vec![TerminalMessage::Close]);
    let mut pty = MockPty::new();
    pty.push_output("hello from the shell\n".as_bytes());
    run_session_loop(&mut conn, &mut pty, &handler, "c1");
    assert_eq!(conn.outbound.len(), 1);
    match &conn.outbound[0] {
        TerminalMessage::Text(t) => assert_eq!(t, "hello from the shell\n"),
        _ => panic!("expected a text frame"),
    }
}

#[test]
fn non_utf8_terminal_output_is_forwarded_as_binary() {
    let handler = MessageHandler::new();
    let mut conn = connection("c1", vec![TerminalMessage::Close]);
    let mut pty = MockPty::new();
    let noise = vec![0xff, 0x00, 0x80];
    pty.push_output(&noise);
    run_session_loop(&mut conn, &mut pty, &handler, "c1");
    assert_eq!(conn.outbound.len(), 1);
    match &conn.outbound[0] {
        TerminalMessage::Binary(b) => assert_eq!(b, &noise),
        _ => panic!("expected a binary frame"),
    }
}

#[test]
fn close_message_stops_the_pump_before_later_messages() {
    let handler = MessageHandler::new();
    let mut conn = connection("c1", vec![text("first\n"), TerminalMessage::Close, text("late\n")]);
    let mut pty = MockPty::new();
    run_session_loop(&mut conn, &mut pty, &handler, "c1");
    assert_eq!(pty.written, vec![b"first\n".to_vec()]);
}

#[test]
fn client_going_away_stops_the_pump() {
    let handler = MessageHandler::new();
    let mut conn = connection("c1", vec![text("only\n")]);
    let mut pty = MockPty::new();
    run_session_loop(&mut conn, &mut pty, &handler, "c1");
    assert_eq!(pty.written, vec![b"only\n".to_vec()]);
    // the pump neither closed the connection nor killed the terminal
    assert!(conn.is_alive());
    assert!(pty.is_alive());
    assert_eq!(conn.close_calls, 0);
    assert_eq!(pty.kill_calls, 0);
}

#[test]
fn terminal_eof_stops_the_pump_without_a_close_frame() {
    // the terminal process exited; its remaining output still reaches the
    // client, and no client close frame is needed to reach teardown
    let handler = MessageHandler::new();
    let mut conn = connection("c1", vec![text("never consumed\n")]);
    let mut pty = MockPty::new();
    pty.push_output("bye\n".as_bytes());
    pty.terminate();
    run_session_loop(&mut conn, &mut pty, &handler, "c1");
    assert_eq!(conn.outbound.len(), 1);
    assert!(pty.written.is_empty());
}

#[test]
fn teardown_closes_and_kills_exactly_once() {
    let mut conn = connection("c1", Vec::new());
    let mut pty = MockPty::new();
    let mut registry = SessionRegistry::new();
    cleanup_session_resources(&mut conn, &mut pty, &mut registry, "c1", 10);
    assert_eq!(conn.close_calls, 1);
    assert_eq!(pty.kill_calls, 1);
    assert!(!conn.is_alive());
    assert!(!pty.is_alive());
}

#[test]
fn teardown_marks_the_session_terminated() {
    let mut conn = connection("c1", Vec::new());
    let mut pty = MockPty::new();
    let mut registry = SessionRegistry::new();
    initialize_session(&mut registry, "c1", ConnectionType::WebSocket, &bare_config(), 5)
        .expect("initialization expected to succeed");
    assert!(matches!(registry.get_session("c1").unwrap().status, SessionStatus::Active));
    cleanup_session_resources(&mut conn, &mut pty, &mut registry, "c1", 10);
    assert!(matches!(registry.get_session("c1").unwrap().status, SessionStatus::Terminated));
}

#[test]
fn whole_session_close_scenario() {
    // a close frame drives the runtime through teardown: close and kill are
    // each invoked exactly once, and the record is left terminated
    let mut conn = connection("c9", vec![text("pwd\n"), TerminalMessage::Close]);
    let mut pty = MockPty::new();
    let mut registry = SessionRegistry::new();
    let phase = handle_terminal_session(&mut conn, &mut pty, &mut registry, &bare_config(), 50);
    assert!(matches!(phase, RuntimePhase::Closed));
    assert_eq!(conn.close_calls, 1);
    assert_eq!(pty.kill_calls, 1);
    assert_eq!(pty.written, vec![b"pwd\n".to_vec()]);
    let record = registry.get_session("c9").expect("record still present for late reads");
    assert!(matches!(record.status, SessionStatus::Terminated));
    // the grace delay elapsed: the caller removes the record
    assert!(registry.remove_session("c9").is_some());
    assert!(registry.get_session("c9").is_none());
}

#[test]
fn whole_session_eof_scenario_matches_close_scenario() {
    // terminal end-of-file is torn down exactly like a client close
    let mut conn_eof = connection("ce", Vec::new());
    let mut pty_eof = MockPty::new();
    pty_eof.terminate();
    let mut registry_eof = SessionRegistry::new();
    let phase =
        handle_terminal_session(&mut conn_eof, &mut pty_eof, &mut registry_eof, &bare_config(), 7);
    assert!(matches!(phase, RuntimePhase::Closed));

    let mut conn_close = connection("cc", vec![TerminalMessage::Close]);
    let mut pty_close = MockPty::new();
    let mut registry_close = SessionRegistry::new();
    handle_terminal_session(&mut conn_close, &mut pty_close, &mut registry_close, &bare_config(), 7);

    assert_eq!(conn_eof.close_calls, conn_close.close_calls);
    assert_eq!(pty_eof.kill_calls, pty_close.kill_calls);
    assert!(!conn_eof.is_alive() && !conn_close.is_alive());
    assert!(!pty_eof.is_alive() && !pty_close.is_alive());
    let a = registry_eof.get_session("ce").unwrap();
    let b = registry_close.get_session("cc").unwrap();
    assert!(matches!(a.status, SessionStatus::Terminated));
    assert!(matches!(b.status, SessionStatus::Terminated));
}

#[test]
fn initialization_failure_sends_one_diagnostic_and_closes() {
    let mut registry = SessionRegistry::new();
    // a record that cannot be re-activated: already terminated
    let mut record = Session::new(
        "cx".to_string(),
        "alice".to_string(),
        None,
        None,
        "sh".to_string(),
        80,
        24,
        rs_terminal::session::ConnectionType::WebSocket,
        1,
    );
    record.set_status(SessionStatus::Active, 2);
    record.set_status(SessionStatus::Terminated, 3);
    registry.add_session(record);

    let mut conn = connection("cx", vec![text("never handled\n")]);
    let mut pty = MockPty::new();
    let phase = handle_terminal_session(&mut conn, &mut pty, &mut registry, &bare_config(), 9);
    assert!(matches!(phase, RuntimePhase::Closed));
    assert_eq!(conn.outbound.len(), 1);
    assert!(matches!(&conn.outbound[0], TerminalMessage::Text(_)));
    assert!(!conn.is_alive());
    assert_eq!(conn.close_calls, 1);
    // the terminal was never touched and the record is gone
    assert_eq!(pty.kill_calls, 0);
    assert!(pty.is_alive());
    assert!(registry.get_session("cx").is_none());
}

#[test]
fn two_sessions_stay_isolated() {
    // writing into one session's terminal never shows up in the other's
    let handler = MessageHandler::new();
    let mut conn_a = connection("a", vec![text("to a\n"), TerminalMessage::Close]);
    let mut conn_b = connection("b", vec![TerminalMessage::Close]);
    let mut pty_a = MockPty::new();
    let mut pty_b = MockPty::new();
    pty_b.push_output("b says hi\n".as_bytes());
    run_session_loop(&mut conn_a, &mut pty_a, &handler, "a");
    run_session_loop(&mut conn_b, &mut pty_b, &handler, "b");
    assert_eq!(pty_a.written, vec![b"to a\n".to_vec()]);
    assert!(pty_b.written.is_empty());
    assert!(conn_a.outbound.is_empty());
    assert_eq!(conn_b.outbound.len(), 1);
}

#[test]
fn pump_decisions_match_the_wire_contract() {
    assert!(matches!(
        pump_decision(PumpEvent::Inbound(text("hi"))),
        PumpStep::WritePty(b) if b == b"hi".to_vec()
    ));
    assert!(matches!(
        pump_decision(PumpEvent::Inbound(TerminalMessage::Binary(vec![7]))),
        PumpStep::WritePty(b) if b == vec![7]
    ));
    assert!(matches!(
        pump_decision(PumpEvent::Inbound(TerminalMessage::Ping(Vec::new()))),
        PumpStep::SendPong
    ));
    assert!(matches!(
        pump_decision(PumpEvent::Inbound(TerminalMessage::Pong)),
        PumpStep::Continue
    ));
    assert!(matches!(
        pump_decision(PumpEvent::Inbound(TerminalMessage::Close)),
        PumpStep::BeginClosing
    ));
    assert!(matches!(pump_decision(PumpEvent::InboundEnded), PumpStep::BeginClosing));
    assert!(matches!(pump_decision(PumpEvent::PtyEof), PumpStep::BeginClosing));
    assert!(matches!(
        pump_decision(PumpEvent::PtyOutput("ok".as_bytes().to_vec())),
        PumpStep::ForwardText(s) if s == "ok"
    ));
    assert!(matches!(
        pump_decision(PumpEvent::PtyOutput(vec![0xff])),
        PumpStep::ForwardBinary(b) if b == vec![0xff]
    ));
}

#[test]
fn ping_is_answered_during_the_pump() {
    let handler = MessageHandler::new();
    let mut conn = connection(
        "c1",
        vec![TerminalMessage::Ping(vec![1]), text("after ping\n"), TerminalMessage::Close],
    );
    let mut pty = MockPty::new();
    run_session_loop(&mut conn, &mut pty, &handler, "c1");
    assert_eq!(conn.outbound.len(), 1);
    assert!(matches!(&conn.outbound[0], TerminalMessage::Text(t) if t == "Pong"));
    assert_eq!(pty.written, vec![b"after ping\n".to_vec()]);
}

#[test]
fn interleaved_text_and_binary_keep_their_order() {
    let handler = MessageHandler::new();
    let mut conn = connection(
        "c1",
        vec![
            text("a"),
            TerminalMessage::Binary(vec![1, 2]),
            text("b"),
            TerminalMessage::Binary(vec![3]),
            TerminalMessage::Close,
        ],
    );
    let mut pty = MockPty::new();
    run_session_loop(&mut conn, &mut pty, &handler, "c1");
    assert_eq!(
        pty.written,
        vec![b"a".to_vec(), vec![1, 2], b"b".to_vec(), vec![3]]
    );
}

#[test]
fn try_wait_reports_exit_only_after_the_process_ends() {
    let mut pty = MockPty::new();
    assert!(matches!(pty.try_wait(), Ok(None)));
    pty.terminate();
    match pty.try_wait() {
        Ok(Some(status)) => assert_eq!(status.code, 0),
        _ => panic!("expected an exit report"),
    }
}

#[test]
fn mock_terminal_resize_is_accepted() {
    let mut pty = MockPty::new();
    assert!(pty.resize(132, 43).is_ok());
    assert_eq!(pty.cols, 132);
    assert_eq!(pty.rows, 43);
}

#[test]
fn reconnect_after_disconnect_is_accepted() {
    let mut registry = SessionRegistry::new();
    let config = bare_config();
    initialize_session(&mut registry, "r1", ConnectionType::WebSocket, &config, 1)
        .expect("first initialization");
    let mut s = registry.get_session("r1").unwrap();
    assert!(s.set_status(SessionStatus::Disconnected, 2));
    assert!(registry.update_session(s));
    initialize_session(&mut registry, "r1", ConnectionType::WebSocket, &config, 3)
        .expect("re-activation from the disconnected state");
    assert!(matches!(registry.get_session("r1").unwrap().status, SessionStatus::Active));
}

#[test]
fn initialize_session_rejects_a_terminated_record() {
    let mut registry = SessionRegistry::new();
    let config = bare_config();
    initialize_session(&mut registry, "t1", ConnectionType::WebSocket, &config, 1)
        .expect("first initialization");
    let mut s = registry.get_session("t1").unwrap();
    assert!(s.set_status(SessionStatus::Terminated, 2));
    assert!(registry.update_session(s));
    assert!(initialize_session(&mut registry, "t1", ConnectionType::WebSocket, &config, 3)
        .is_err());
    // the failed attempt left the record as it was
    assert!(matches!(registry.get_session("t1").unwrap().status, SessionStatus::Terminated));
}
