use rs_terminal::message_handler::MessageHandler;
use rs_terminal::protocol::{ConnectionType, MemoryConnection, TerminalConnection,
    TerminalMessage};
use rs_terminal::pty::{MockPty, Pty};

fn open_connection(script: Vec<TerminalMessage>) -> MemoryConnection {
    MemoryConnection::new("conn-1".to_string(), ConnectionType::WebSocket, script)
}

#[test]
fn text_message_reaches_terminal_input() {
    let handler = MessageHandler::new();
    let mut conn = open_connection(Vec::new());
    let mut pty = MockPty::new();
    let close = handler
        .handle_message(TerminalMessage::Text("ls -l\n".to_string()), &mut conn, &mut pty, "s")
        .expect("write expected to succeed");
    assert!(!close);
    assert_eq!(pty.written, vec![b"ls -l\n".to_vec()]);
    assert!(conn.outbound.is_empty());
}

#[test]
fn binary_message_reaches_terminal_input() {
    let handler = MessageHandler::new();
    let mut conn = open_connection(Vec::new());
    let mut pty = MockPty::new();
    let payload = vec![0u8, 159, 146, 150];
    let close = handler
        .handle_message(TerminalMessage::Binary(payload.clone()), &mut conn, &mut pty, "s")
        .expect("write expected to succeed");
    assert!(!close);
    assert_eq!(pty.written, vec![payload]);
}

#[test]
fn ping_is_answered_with_pong() {
    let handler = MessageHandler::new();
    let mut conn = open_connection(Vec::new());
    let mut pty = MockPty::new();
    let close = handler
        .handle_message(TerminalMessage::Ping(vec![1, 2]), &mut conn, &mut pty, "s")
        .expect("pong expected to be sent");
    assert!(!close);
    assert_eq!(conn.outbound.len(), 1);
    assert!(matches!(&conn.outbound[0], TerminalMessage::Text(t) if t == "Pong"));
    assert!(pty.written.is_empty());
}

#[test]
fn pong_is_ignored() {
    let handler = MessageHandler::new();
    let mut conn = open_connection(Vec::new());
    let mut pty = MockPty::new();
    let close = handler
        .handle_message(TerminalMessage::Pong, &mut conn, &mut pty, "s")
        .expect("pong handling never fails");
    assert!(!close);
    assert!(conn.outbound.is_empty());
    assert!(pty.written.is_empty());
}

#[test]
fn close_message_asks_to_close() {
    let handler = MessageHandler::new();
    let mut conn = open_connection(Vec::new());
    let mut pty = MockPty::new();
    let close = handler
        .handle_message(TerminalMessage::Close, &mut conn, &mut pty, "s")
        .expect("close handling never fails");
    assert!(close);
    assert!(conn.outbound.is_empty());
    assert!(pty.written.is_empty());
}

#[test]
fn writing_to_a_dead_terminal_fails() {
    let handler = MessageHandler::new();
    let mut conn = open_connection(Vec::new());
    let mut pty = MockPty::new();
    pty.terminate();
    let r = handler.handle_message(
        TerminalMessage::Text("echo hi\n".to_string()),
        &mut conn,
        &mut pty,
        "s",
    );
    assert!(r.is_err());
    assert!(pty.written.is_empty());
}

#[test]
fn utf8_output_travels_as_identical_text() {
    let handler = MessageHandler::new();
    let mut conn = open_connection(Vec::new());
    let payload = "grüße aus dem terminal\n".as_bytes();
    handler.handle_pty_output(payload, &mut conn, "s").expect("send expected to succeed");
    assert_eq!(conn.outbound.len(), 1);
    match &conn.outbound[0] {
        TerminalMessage::Text(t) => assert_eq!(t.as_bytes(), payload),
        other => panic!("expected a text frame, got {:?}", std::mem::discriminant(other)),
    }
}

#[test]
fn non_utf8_output_travels_as_identical_binary() {
    let handler = MessageHandler::new();
    let mut conn = open_connection(Vec::new());
    let payload = vec![0xff, 0xfe, 0x00, 0x41];
    handler.handle_pty_output(&payload, &mut conn, "s").expect("send expected to succeed");
    assert_eq!(conn.outbound.len(), 1);
    match &conn.outbound[0] {
        TerminalMessage::Binary(b) => assert_eq!(b, &payload),
        _ => panic!("expected a binary frame"),
    }
}

#[test]
fn close_is_idempotent_on_connections() {
    let mut conn = open_connection(Vec::new());
    assert!(conn.close().is_ok());
    assert!(conn.close().is_ok());
    assert!(!conn.is_alive());
    assert_eq!(conn.close_calls, 2);
}

#[test]
fn kill_is_idempotent_on_terminals() {
    let mut pty = MockPty::new();
    assert!(pty.kill().is_ok());
    assert!(!pty.is_alive());
    assert!(pty.kill().is_ok());
    assert_eq!(pty.kill_calls, 2);
}

#[test]
fn kill_after_natural_exit_succeeds() {
    let mut pty = MockPty::new();
    pty.terminate();
    assert!(!pty.is_alive());
    assert!(pty.kill().is_ok());
}

#[test]
fn send_on_closed_connection_fails() {
    let mut conn = open_connection(Vec::new());
    conn.close().unwrap();
    assert!(conn.send_text("late").is_err());
    assert!(conn.send_binary(&[1]).is_err());
    assert!(conn.outbound.is_empty());
}

#[test]
fn forwarding_to_a_closed_connection_fails() {
    let handler = MessageHandler::new();
    let mut conn = open_connection(Vec::new());
    conn.close().unwrap();
    let r = handler.handle_pty_output(b"late output", &mut conn, "s");
    assert!(r.is_err());
    assert!(conn.outbound.is_empty());
}
