//! The session runtime: per-connection state machine that initializes the
//! session record, pumps bytes between the connection and the terminal, and
//! tears both down in order.

use crate::config::TerminalConfig;
use crate::message_handler::{message_closes, message_pongs, message_writes, pty_output_frame,
    MessageHandler};
use crate::protocol::{ConnectionError, MessageView, TerminalConnection, TerminalMessage};
use crate::pty::{Pty, PtyError};
use crate::registry::SessionRegistry;
use crate::service_error::ServiceError;
use crate::session::{status_can_step, ConnectionType, Session, SessionStatus};
use vstd::prelude::*;

verus! {

/// Bytes one terminal read hands to the pump, at most.
pub const PTY_READ_CHUNK: usize = 4096;

/// Phase of one session runtime. A runtime is entered once per connection
/// and never reused; the phases only move forward.
#[derive(Clone, Copy, Debug, PartialEq, Eq, Structural)]
pub enum RuntimePhase {
    /// Resolving the session record and launching the terminal.
    Initializing,
    /// Pumping between connection and terminal.
    Active,
    /// Tearing the connection and the terminal down.
    Closing,
    /// Done; the record only awaits removal.
    Closed,
}

/// The frames that carry `output` to the client, in order, as the pump reads
/// it in chunks of at most [`PTY_READ_CHUNK`] bytes.
pub open spec fn output_frames(output: Seq<u8>) -> Seq<MessageView>
    decreases output.len(),
{
    if output.len() == 0 {
        Seq::empty()
    } else {
        let n = if output.len() < PTY_READ_CHUNK as int {
            output.len() as int
        } else {
            PTY_READ_CHUNK as int
        };
        seq![pty_output_frame(output.take(n))] + output_frames(output.skip(n))
    }
}

/// The bytes one frame carries: a text frame its UTF-8 encoding, a binary
/// frame its payload, the rest nothing.
pub open spec fn frame_bytes(f: MessageView) -> Seq<u8> {
    match f {
        MessageView::Text(t) => vstd::utf8::encode_utf8(t),
        MessageView::Binary(b) => b,
        MessageView::Ping(p) => p,
        MessageView::Pong => Seq::empty(),
        MessageView::Close => Seq::empty(),
    }
}

/// The bytes a sequence of frames carries, in order.
pub open spec fn frames_bytes(frames: Seq<MessageView>) -> Seq<u8>
    decreases frames.len(),
{
    if frames.len() == 0 {
        Seq::empty()
    } else {
        frame_bytes(frames[0]) + frames_bytes(frames.skip(1))
    }
}

/// Forwarding terminal output loses nothing: the frames that carry an output
/// stream hold, in order, exactly the stream's bytes — decodable chunks as
/// text with the same content, the rest as binary unchanged.
pub proof fn lemma_output_frames_lossless(output: Seq<u8>)
    ensures
        frames_bytes(output_frames(output)) == output,
    decreases output.len(),
{
    if output.len() == 0 {
        assert(frames_bytes(output_frames(output)) =~= output);
    } else {
        let n = if output.len() < PTY_READ_CHUNK as int {
            output.len() as int
        } else {
            PTY_READ_CHUNK as int
        };
        let chunk = output.take(n);
        let rest = output.skip(n);
        crate::message_handler::lemma_pty_output_frame_lossless(chunk);
        assert(frame_bytes(pty_output_frame(chunk)) == chunk);
        lemma_output_frames_lossless(rest);
        let frames = output_frames(output);
        assert(frames[0] == pty_output_frame(chunk));
        assert(frames.skip(1) =~= output_frames(rest));
        assert(frames_bytes(frames) =~= chunk + rest);
        assert(chunk + rest =~= output);
    }
}

/// The payload chunks `msgs` delivers to the terminal input, in order.
pub open spec fn messages_writes(msgs: Seq<MessageView>) -> Seq<Seq<u8>>
    decreases msgs.len(),
{
    if msgs.len() == 0 {
        Seq::empty()
    } else {
        messages_writes(msgs.drop_last()) + (match message_writes(msgs.last()) {
            Some(b) => seq![b],
            None => Seq::empty(),
        })
    }
}

/// The frames the pump sends back while handling `msgs`: one pong reply per
/// ping, in order.
pub open spec fn messages_frames(msgs: Seq<MessageView>) -> Seq<MessageView>
    decreases msgs.len(),
{
    if msgs.len() == 0 {
        Seq::empty()
    } else {
        messages_frames(msgs.drop_last()) + (if message_pongs(msgs.last()) {
            seq![MessageView::Text("Pong"@)]
        } else {
            Seq::<MessageView>::empty()
        })
    }
}

/// How many inbound frames the pump consumes before the active phase ends:
/// everything up to and including the first close request, or all of them
/// when the client just stops sending.
pub open spec fn consumed_len(msgs: Seq<MessageView>) -> int
    decreases msgs.len(),
{
    if msgs.len() == 0 {
        0
    } else if message_closes(msgs[0]) {
        1
    } else {
        1 + consumed_len(msgs.skip(1))
    }
}

/// The text carried by a text message, or nothing.
pub open spec fn text_payload(m: MessageView) -> Seq<char> {
    match m {
        MessageView::Text(t) => t,
        _ => Seq::empty(),
    }
}

/// A client that sends only text messages neither closes the session early
/// nor loses a message: the pump consumes the whole sequence, and the
/// terminal input receives exactly one chunk per message, the message's
/// UTF-8 bytes, in the order sent.
pub proof fn lemma_text_messages_write_in_order(msgs: Seq<MessageView>)
    requires
        forall|i: int| 0 <= i < msgs.len() ==> (#[trigger] msgs[i]) is Text,
    ensures
        consumed_len(msgs) == msgs.len(),
        messages_writes(msgs).len() == msgs.len(),
        forall|i: int|
            0 <= i < msgs.len() ==> messages_writes(msgs)[i] == vstd::utf8::encode_utf8(
                text_payload(#[trigger] msgs[i]),
            ),
    decreases msgs.len(),
{
    if msgs.len() > 0 {
        assert(forall|i: int| 0 <= i < msgs.len() - 1 ==> msgs.drop_last()[i] == msgs[i]);
        lemma_text_messages_write_in_order(msgs.drop_last());
        assert(forall|i: int| 0 <= i < msgs.len() - 1 ==> msgs.skip(1)[i] == msgs[i + 1]);
        lemma_text_messages_write_in_order(msgs.skip(1));
        assert(msgs.last() is Text);
        assert(messages_writes(msgs) == messages_writes(msgs.drop_last()) + seq![
            vstd::utf8::encode_utf8(text_payload(msgs.last())),
        ]);
    }
}

/// The active pump of one session: forward terminal output to the client and
/// apply client messages to the terminal, each stream in order, until one
/// side ends the session.
///
/// Inbound messages reach the terminal input in arrival order, and terminal
/// output reaches the client in production order. The pump ends on the first
/// close request, on the client going away, or on the terminal's output
/// stream ending; it neither closes the connection nor kills the terminal —
/// that is the teardown's job.
pub fn run_session_loop<C: TerminalConnection, P: Pty>(
    connection: &mut C,
    pty: &mut P,
    message_handler: &MessageHandler,
    conn_id: &str,
)
    requires
        old(connection).inv(),
        old(pty).inv(),
        !old(connection).closed(),
    ensures
        final(connection).inv(),
        final(pty).inv(),
        final(pty).alive() == old(pty).alive(),
        final(pty).output().len() == 0,
        final(connection).closed() == old(connection).closed(),
        final(connection).close_count() == old(connection).close_count(),
        final(pty).kill_count() == old(pty).kill_count(),
        old(pty).alive() ==> {
            let consumed = old(connection).pending().take(consumed_len(old(connection).pending()));
            &&& final(pty).writes() == old(pty).writes() + messages_writes(consumed)
            &&& final(connection).sent() == old(connection).sent() + output_frames(
                old(pty).output(),
            ) + messages_frames(consumed)
            &&& final(connection).pending() == old(connection).pending().skip(
                consumed_len(old(connection).pending()),
            )
        },
        !old(pty).alive() ==> {
            &&& final(pty).writes() == old(pty).writes()
            &&& final(connection).sent() == old(connection).sent() + output_frames(
                old(pty).output(),
            )
            &&& final(connection).pending() == old(connection).pending()
        },
{
    let ghost pend = old(connection).pending();
    let ghost out0 = old(pty).output();
    let ghost mut fwd: Seq<MessageView> = Seq::empty();
    let ghost mut k: int = 0;
    let mut done: bool = false;
    proof {
        assert(fwd + output_frames(pty.output()) =~= output_frames(out0));
        assert(pend.take(0) =~= Seq::<MessageView>::empty());
        assert(pend.skip(0) =~= pend);
        assert(connection.sent() =~= old(connection).sent() + fwd + messages_frames(pend.take(0)));
        assert(pty.writes() =~= old(pty).writes() + messages_writes(pend.take(0)));
    }
    while !done
        invariant
            connection.inv(),
            pty.inv(),
            pend == old(connection).pending(),
            out0 == old(pty).output(),
            pty.alive() == old(pty).alive(),
            connection.closed() == old(connection).closed(),
            !connection.closed(),
            connection.close_count() == old(connection).close_count(),
            pty.kill_count() == old(pty).kill_count(),
            fwd + output_frames(pty.output()) == output_frames(out0),
            0 <= k <= pend.len(),
            !done ==> forall|j: int| 0 <= j < k ==> !message_closes(pend[j]),
            connection.pending() == pend.skip(k),
            connection.sent() == old(connection).sent() + fwd + messages_frames(pend.take(k)),
            pty.writes() == old(pty).writes() + messages_writes(pend.take(k)),
            k > 0 ==> old(pty).alive() && pty.output().len() == 0 && fwd == output_frames(out0),
            done ==> pty.output().len() == 0 && fwd == output_frames(out0),
            done ==> (if old(pty).alive() {
                k == consumed_len(pend)
            } else {
                k == 0
            }),
        decreases (if done {
            0int
        } else {
            1int
        }) + pty.output().len() + pend.len() - k,
    {
        if pty.has_output() {
            let ghost out_cur = pty.output();
            let data = pty.read(PTY_READ_CHUNK);
            let res = message_handler.handle_pty_output(data.as_slice(), connection, conn_id);
            proof {
                fwd = fwd.push(pty_output_frame(data@));
                assert(output_frames(out_cur) =~= seq![pty_output_frame(data@)] + output_frames(
                    pty.output(),
                ));
                assert(fwd + output_frames(pty.output()) =~= output_frames(out0));
                assert(connection.sent() =~= old(connection).sent() + fwd + messages_frames(
                    pend.take(k),
                ));
            }
            if res.is_err() {
                proof {
                    assert(false);
                }
                done = true;
            }
        } else if !pty.is_alive() {
            done = true;
        } else {
            match connection.receive() {
                Some(inbound) => {
                    match inbound {
                        Ok(msg) => {
                            let ghost mview = msg@;
                            proof {
                                assert(pend.skip(k)[0] == pend[k]);
                                assert(mview == pend[k]);
                            }
                            let step = message_handler.handle_message(
                                msg,
                                connection,
                                pty,
                                conn_id,
                            );
                            proof {
                                k = k + 1;
                                assert(pend.take(k).drop_last() =~= pend.take(k - 1));
                                assert(pend.take(k).last() == pend[k - 1]);
                                assert(pend.skip(k) =~= pend.skip(k - 1).skip(1));
                                assert(pty.writes() =~= old(pty).writes() + messages_writes(
                                    pend.take(k),
                                ));
                                assert(connection.sent() =~= old(connection).sent() + fwd
                                    + messages_frames(pend.take(k)));
                            }
                            match step {
                                Ok(close) => {
                                    if close {
                                        proof {
                                            lemma_consumed_prefix(pend, k - 1);
                                        }
                                        done = true;
                                    }
                                },
                                Err(_) => {
                                    proof {
                                        assert(mview is Text || mview is Binary || mview is Ping
                                            || mview is Pong || mview is Close);
                                        assert(false);
                                    }
                                    done = true;
                                },
                            }
                        },
                        Err(_) => {
                            proof {
                                assert(false);
                            }
                            done = true;
                        },
                    }
                },
                None => {
                    proof {
                        assert(pend.skip(k).len() == 0);
                        lemma_consumed_prefix(pend, k);
                    }
                    done = true;
                },
            }
        }
    }
    proof {
        if old(pty).alive() {
            assert(pend.take(consumed_len(pend)) == pend.take(k));
        } else {
            assert(pend.take(0) =~= Seq::<MessageView>::empty());
            assert(messages_frames(pend.take(0)) =~= Seq::<MessageView>::empty());
            assert(connection.sent() =~= old(connection).sent() + output_frames(out0));
            assert(pty.writes() =~= old(pty).writes());
            assert(pend.skip(0) =~= pend);
        }
    }
}

proof fn lemma_consumed_prefix(msgs: Seq<MessageView>, k: int)
    requires
        0 <= k <= msgs.len(),
        forall|j: int| 0 <= j < k ==> !message_closes(msgs[j]),
    ensures
        k == msgs.len() ==> consumed_len(msgs) == k,
        k < msgs.len() && message_closes(msgs[k]) ==> consumed_len(msgs) == k + 1,
    decreases k,
{
    if k == 0 {
    } else {
        assert(!message_closes(msgs[0]));
        assert(forall|j: int| 0 <= j < k - 1 ==> msgs.skip(1)[j] == msgs[j + 1]);
        lemma_consumed_prefix(msgs.skip(1), k - 1);
        if k < msgs.len() {
            assert(msgs.skip(1)[k - 1] == msgs[k]);
        }
    }
}

/// The session connection kind matching a transport connection kind.
pub fn to_session_connection_type(t: crate::protocol::ConnectionType) -> (r: ConnectionType)
    ensures
        r == (match t {
            crate::protocol::ConnectionType::WebSocket => ConnectionType::WebSocket,
            crate::protocol::ConnectionType::WebTransport => ConnectionType::WebTransport,
        }),
{
    match t {
        crate::protocol::ConnectionType::WebSocket => ConnectionType::WebSocket,
        crate::protocol::ConnectionType::WebTransport => ConnectionType::WebTransport,
    }
}

/// Whether a connection identified by `conn_id` may enter the active phase:
/// either no record exists yet, or the recorded status admits a step to
/// `Active`.
pub open spec fn can_initialize(registry: SessionRegistry, conn_id: Seq<char>) -> bool {
    match registry.spec_get(conn_id) {
        Some(s) => status_can_step(s.status, SessionStatus::Active),
        None => true,
    }
}

/// Resolve or create the session record for a new connection: an existing
/// record is moved to `Active`; with no prior record, a record with the
/// default shell and default size is created directly in `Active` status.
/// Fails exactly when the recorded status does not admit activation.
pub fn initialize_session(
    registry: &mut SessionRegistry,
    conn_id: &str,
    conn_type: crate::protocol::ConnectionType,
    config: &TerminalConfig,
    now: u64,
) -> (r: Result<(), ServiceError>)
    requires
        old(registry).wf(),
    ensures
        final(registry).wf(),
        r is Ok <==> can_initialize(*old(registry), conn_id@),
        r is Err ==> *final(registry) == *old(registry),
        forall|id: Seq<char>|
            id != conn_id@ ==> #[trigger] final(registry).spec_get(id) == old(registry).spec_get(
                id,
            ),
        r is Ok ==> final(registry).spec_get(conn_id@) is Some && final(registry).spec_get(
            conn_id@,
        ).unwrap().status == SessionStatus::Active,
        r is Ok ==> (match old(registry).spec_get(conn_id@) {
            Some(s) => final(registry).spec_get(conn_id@) == Some(
                (Session {
                    status: SessionStatus::Active,
                    updated_at: (if now >= s.created_at {
                        now
                    } else {
                        s.created_at
                    }),
                    ..s
                }),
            ),
            None => {
                let created = final(registry).spec_get(conn_id@).unwrap();
                &&& created.session_id@ == conn_id@
                &&& created.user_id@ == "anonymous"@
                &&& created.title is None
                &&& created.working_directory is None
                &&& created.shell_type == config.default_shell_type
                &&& created.columns == config.default_shell_config.size.columns
                &&& created.rows == config.default_shell_config.size.rows
                &&& created.connection_type == (match conn_type {
                    crate::protocol::ConnectionType::WebSocket => ConnectionType::WebSocket,
                    crate::protocol::ConnectionType::WebTransport => ConnectionType::WebTransport,
                })
                &&& created.created_at == now
                &&& created.updated_at == now
            },
        }),
{
    proof {
        if old(registry).spec_get(conn_id@) is Some {
            old(registry).lemma_stored_session_id(conn_id@);
        }
    }
    match registry.get_session(conn_id) {
        Some(mut session) => {
            if session.set_status(SessionStatus::Active, now) {
                let updated = registry.update_session(session);
                Ok(())
            } else {
                Err(ServiceError::SessionInitialization(
                    "session status does not admit activation".to_owned(),
                ))
            }
        },
        None => {
            let mut session = Session::new(
                conn_id.to_owned(),
                "anonymous".to_owned(),
                None,
                None,
                config.default_shell_type.clone(),
                config.default_shell_config.size.columns,
                config.default_shell_config.size.rows,
                to_session_connection_type(conn_type),
                now,
            );
            let activated = session.set_status(SessionStatus::Active, now);
            registry.add_session(session);
            Ok(())
        },
    }
}

/// Error path of session setup: send the one diagnostic text message, close
/// the connection, and drop any partly created registry record. The active
/// phase is never entered.
pub fn fail_session_setup<C: TerminalConnection>(
    connection: &mut C,
    registry: &mut SessionRegistry,
    conn_id: &str,
    error_message: &str,
)
    requires
        old(connection).inv(),
        old(registry).wf(),
    ensures
        final(connection).inv(),
        final(registry).wf(),
        final(connection).closed(),
        final(connection).close_count() == (if old(connection).close_count() < u64::MAX {
            old(connection).close_count() + 1
        } else {
            old(connection).close_count()
        }),
        !old(connection).closed() ==> final(connection).sent() == old(connection).sent().push(
            MessageView::Text(error_message@),
        ),
        old(connection).closed() ==> final(connection).sent() == old(connection).sent(),
        final(connection).pending() == old(connection).pending(),
        !final(registry).spec_contains(conn_id@),
        forall|id: Seq<char>|
            id != conn_id@ ==> #[trigger] final(registry).spec_get(id) == old(registry).spec_get(
                id,
            ),
{
    let _ = connection.send_text(error_message);
    let _ = connection.close();
    let _ = registry.remove_session(conn_id);
}

/// Ordered teardown of one session: close the connection and kill the
/// terminal, both attempted unconditionally and independently, then mark the
/// session record `Terminated`. Each of close and kill is invoked exactly
/// once here.
pub fn cleanup_session_resources<C: TerminalConnection, P: Pty>(
    connection: &mut C,
    pty: &mut P,
    registry: &mut SessionRegistry,
    conn_id: &str,
    now: u64,
)
    requires
        old(connection).inv(),
        old(pty).inv(),
        old(registry).wf(),
    ensures
        final(connection).inv(),
        final(pty).inv(),
        final(registry).wf(),
        final(connection).closed(),
        final(connection).close_count() == (if old(connection).close_count() < u64::MAX {
            old(connection).close_count() + 1
        } else {
            old(connection).close_count()
        }),
        !final(pty).alive(),
        final(pty).kill_count() == (if old(pty).kill_count() < u64::MAX {
            old(pty).kill_count() + 1
        } else {
            old(pty).kill_count()
        }),
        final(connection).sent() == old(connection).sent(),
        final(connection).pending() == old(connection).pending(),
        final(pty).writes() == old(pty).writes(),
        final(pty).output() == old(pty).output(),
        match old(registry).spec_get(conn_id@) {
            Some(s) => {
                if status_can_step(s.status, SessionStatus::Terminated) {
                    final(registry).spec_get(conn_id@) == Some(
                        (Session {
                            status: SessionStatus::Terminated,
                            updated_at: (if now >= s.created_at {
                                now
                            } else {
                                s.created_at
                            }),
                            ..s
                        }),
                    )
                } else {
                    *final(registry) == *old(registry)
                }
            },
            None => *final(registry) == *old(registry),
        },
        forall|id: Seq<char>|
            id != conn_id@ ==> #[trigger] final(registry).spec_get(id) == old(registry).spec_get(
                id,
            ),
{
    let _ = connection.close();
    let _ = pty.kill();
    proof {
        if old(registry).spec_get(conn_id@) is Some {
            old(registry).lemma_stored_session_id(conn_id@);
        }
    }
    match registry.get_session(conn_id) {
        Some(mut session) => {
            if session.set_status(SessionStatus::Terminated, now) {
                let _ = registry.update_session(session);
            }
        },
        None => {},
    }
}

/// Serve one connection end to end: resolve or create the session record,
/// pump between the connection and the already-launched terminal, and tear
/// both down. Always ends in the `Closed` phase.
///
/// On an initialization failure the client gets a single diagnostic text
/// message, the connection is closed, any partly created record is removed,
/// and the terminal is left untouched; the active phase is never entered.
/// Otherwise the pump runs to its end and teardown closes the connection and
/// kills the terminal exactly once each, leaving the record `Terminated`
/// until the caller removes it after its grace delay.
pub fn handle_terminal_session<C: TerminalConnection, P: Pty>(
    connection: &mut C,
    pty: &mut P,
    registry: &mut SessionRegistry,
    config: &TerminalConfig,
    now: u64,
) -> (phase: RuntimePhase)
    requires
        old(connection).inv(),
        old(pty).inv(),
        old(registry).wf(),
        !old(connection).closed(),
    ensures
        phase == RuntimePhase::Closed,
        final(connection).inv(),
        final(pty).inv(),
        final(registry).wf(),
        final(connection).closed(),
        final(connection).close_count() == (if old(connection).close_count() < u64::MAX {
            old(connection).close_count() + 1
        } else {
            old(connection).close_count()
        }),
        can_initialize(*old(registry), old(connection).spec_id()) ==> {
            &&& !final(pty).alive()
            &&& final(pty).kill_count() == (if old(pty).kill_count() < u64::MAX {
                old(pty).kill_count() + 1
            } else {
                old(pty).kill_count()
            })
            &&& final(registry).spec_get(old(connection).spec_id()) is Some
            &&& final(registry).spec_get(old(connection).spec_id()).unwrap().status
                == SessionStatus::Terminated
            &&& (old(pty).alive() ==> {
                let consumed = old(connection).pending().take(
                    consumed_len(old(connection).pending()),
                );
                &&& final(pty).writes() == old(pty).writes() + messages_writes(consumed)
                &&& final(connection).sent() == old(connection).sent() + output_frames(
                    old(pty).output(),
                ) + messages_frames(consumed)
                &&& final(connection).pending() == old(connection).pending().skip(
                    consumed_len(old(connection).pending()),
                )
            })
        },
        !can_initialize(*old(registry), old(connection).spec_id()) ==> {
            &&& *final(pty) == *old(pty)
            &&& final(connection).sent() == old(connection).sent().push(
                MessageView::Text("Error: Failed to initialize terminal session"@),
            )
            &&& !final(registry).spec_contains(old(connection).spec_id())
        },
        forall|id: Seq<char>|
            id != old(connection).spec_id() ==> #[trigger] final(registry).spec_get(id) == old(
                registry,
            ).spec_get(id),
{
    let mut phase = RuntimePhase::Initializing;
    let conn_id: String = connection.id().to_owned();
    let conn_type = connection.connection_type();
    let message_handler = MessageHandler::new();
    match initialize_session(registry, conn_id.as_str(), conn_type, config, now) {
        Ok(_) => {},
        Err(_) => {
            fail_session_setup(
                connection,
                registry,
                conn_id.as_str(),
                "Error: Failed to initialize terminal session",
            );
            phase = RuntimePhase::Closed;
            return phase;
        },
    }
    phase = RuntimePhase::Active;
    run_session_loop(connection, pty, &message_handler, conn_id.as_str());
    phase = RuntimePhase::Closing;
    cleanup_session_resources(connection, pty, registry, conn_id.as_str(), now);
    phase = RuntimePhase::Closed;
    phase
}

/// One event the active pump can observe, for a driver that waits on the two
/// sources itself.
pub enum PumpEvent {
    /// A message arrived from the client.
    Inbound(TerminalMessage),
    /// Receiving from the connection failed.
    InboundFailed(ConnectionError),
    /// The client side ended; nothing more will arrive.
    InboundEnded,
    /// The terminal produced output.
    PtyOutput(Vec<u8>),
    /// The terminal's output stream ended.
    PtyEof,
    /// Reading from the terminal failed.
    PtyFailed(PtyError),
}

/// What a pump driver does with one event.
pub enum PumpStep {
    /// Deliver these bytes to the terminal input, then continue.
    WritePty(Vec<u8>),
    /// Answer with a pong acknowledgement, then continue.
    SendPong,
    /// Forward this text frame to the client, then continue.
    ForwardText(String),
    /// Forward this binary frame to the client, then continue.
    ForwardBinary(Vec<u8>),
    /// Nothing to do; continue.
    Continue,
    /// Leave the active phase and tear the session down.
    BeginClosing,
}

/// Whether an event ends the active phase: a close request, a transport
/// fault or the client going away, and the terminal's output ending or
/// failing all do; data and keep-alive traffic does not.
pub open spec fn ends_active(event: PumpEvent) -> bool {
    match event {
        PumpEvent::Inbound(m) => message_closes(m@),
        PumpEvent::InboundFailed(_) => true,
        PumpEvent::InboundEnded => true,
        PumpEvent::PtyOutput(_) => false,
        PumpEvent::PtyEof => true,
        PumpEvent::PtyFailed(_) => true,
    }
}

/// The terminal's output stream ending is handled exactly like a client
/// close request: either event ends the active phase, and the same teardown
/// follows; no client-sent close frame is needed.
pub proof fn lemma_eof_ends_like_close(m: TerminalMessage)
    requires
        m@ is Close,
    ensures
        ends_active(PumpEvent::PtyEof),
        ends_active(PumpEvent::Inbound(m)),
        ends_active(PumpEvent::PtyEof) == ends_active(PumpEvent::Inbound(m)),
{
}

/// Decide what one pump event asks of the driver. Text and binary payloads
/// go to the terminal input unchanged, a ping is answered with a pong, a
/// pong is ignored, terminal output is forwarded as text when it is valid
/// UTF-8 and as binary otherwise, and every stream-ending event begins the
/// teardown.
pub fn pump_decision(event: PumpEvent) -> (r: PumpStep)
    ensures
        r is BeginClosing <==> ends_active(event),
        (match event {
            PumpEvent::Inbound(m) => (match m@ {
                MessageView::Text(t) => r matches PumpStep::WritePty(b) && b@
                    == vstd::utf8::encode_utf8(t),
                MessageView::Binary(bb) => r matches PumpStep::WritePty(b) && b@ == bb,
                MessageView::Ping(_) => r is SendPong,
                MessageView::Pong => r is Continue,
                MessageView::Close => r is BeginClosing,
            }),
            PumpEvent::PtyOutput(d) => (match pty_output_frame(d@) {
                MessageView::Text(t) => r matches PumpStep::ForwardText(s) && s@ == t,
                MessageView::Binary(b2) => r matches PumpStep::ForwardBinary(b) && b@ == b2,
                _ => false,
            }),
            _ => r is BeginClosing,
        }),
{
    match event {
        PumpEvent::Inbound(m) => match m {
            TerminalMessage::Text(t) => {
                let bytes = vstd::slice::slice_to_vec(t.as_str().as_bytes());
                PumpStep::WritePty(bytes)
            },
            TerminalMessage::Binary(b) => PumpStep::WritePty(b),
            TerminalMessage::Ping(_) => PumpStep::SendPong,
            TerminalMessage::Pong => PumpStep::Continue,
            TerminalMessage::Close => PumpStep::BeginClosing,
        },
        PumpEvent::InboundFailed(_) => PumpStep::BeginClosing,
        PumpEvent::InboundEnded => PumpStep::BeginClosing,
        PumpEvent::PtyOutput(d) => {
            match crate::text::utf8_to_string(d.as_slice()) {
                Some(text) => PumpStep::ForwardText(text),
                None => PumpStep::ForwardBinary(d),
            }
        },
        PumpEvent::PtyEof => PumpStep::BeginClosing,
        PumpEvent::PtyFailed(_) => PumpStep::BeginClosing,
    }
}

} // verus!
