//! Translation between transport messages and the terminal byte stream.

use crate::protocol::{MessageView, TerminalConnection, TerminalMessage};
use crate::pty::Pty;
use crate::service_error::ServiceError;
use crate::text::utf8_to_string;
use vstd::prelude::*;
use vstd::utf8::{decode_utf8, valid_utf8};

verus! {

/// Bytes a message delivers to the terminal input: a text message delivers
/// its UTF-8 bytes, a binary message its payload, the rest deliver nothing.
pub open spec fn message_writes(m: MessageView) -> Option<Seq<u8>> {
    match m {
        MessageView::Text(t) => Some(vstd::utf8::encode_utf8(t)),
        MessageView::Binary(b) => Some(b),
        _ => None,
    }
}

/// Whether a message asks the session to close.
pub open spec fn message_closes(m: MessageView) -> bool {
    m is Close
}

/// Whether a message is answered with a pong acknowledgement.
pub open spec fn message_pongs(m: MessageView) -> bool {
    m is Ping
}

/// The frame that carries one chunk of terminal output: a text frame holding
/// the decoded characters when the bytes are valid UTF-8, else a binary frame
/// holding the bytes unchanged.
pub open spec fn pty_output_frame(data: Seq<u8>) -> MessageView {
    if valid_utf8(data) {
        MessageView::Text(decode_utf8(data))
    } else {
        MessageView::Binary(data)
    }
}

/// Terminal output framing is lossless: output that is valid UTF-8 travels
/// as a text frame whose characters encode back to exactly the original
/// bytes, and any other output travels as a binary frame with the bytes
/// unchanged.
pub proof fn lemma_pty_output_frame_lossless(data: Seq<u8>)
    ensures
        valid_utf8(data) ==> pty_output_frame(data) == MessageView::Text(decode_utf8(data))
            && vstd::utf8::encode_utf8(decode_utf8(data)) == data,
        !valid_utf8(data) ==> pty_output_frame(data) == MessageView::Binary(data),
{
    if valid_utf8(data) {
        vstd::utf8::decode_utf8_encode_utf8(data);
    }
}

/// Stateless translator between transport messages and the terminal.
pub struct MessageHandler;

impl MessageHandler {
    /// Create a message handler.
    pub fn new() -> (h: MessageHandler) {
        MessageHandler
    }

    /// Write a text payload to the terminal input.
    fn handle_text_message<P: Pty>(&self, text: String, pty: &mut P) -> (r: Result<
        bool,
        ServiceError,
    >)
        requires
            old(pty).inv(),
        ensures
            final(pty).inv(),
            r is Ok <==> old(pty).alive(),
            r == Ok::<bool, ServiceError>(false) <==> old(pty).alive(),
            r is Ok ==> final(pty).writes() == old(pty).writes().push(vstd::utf8::encode_utf8(text@)),
            r is Err ==> final(pty).writes() == old(pty).writes(),
            final(pty).output() == old(pty).output(),
            final(pty).alive() == old(pty).alive(),
            final(pty).kill_count() == old(pty).kill_count(),
    {
        match pty.write(text.as_str().as_bytes()) {
            Ok(_) => Ok(false),
            Err(e) => Err(ServiceError::Pty(e)),
        }
    }

    /// Write a binary payload to the terminal input.
    fn handle_binary_message<P: Pty>(&self, bin: Vec<u8>, pty: &mut P) -> (r: Result<
        bool,
        ServiceError,
    >)
        requires
            old(pty).inv(),
        ensures
            final(pty).inv(),
            r is Ok <==> old(pty).alive(),
            r == Ok::<bool, ServiceError>(false) <==> old(pty).alive(),
            r is Ok ==> final(pty).writes() == old(pty).writes().push(bin@),
            r is Err ==> final(pty).writes() == old(pty).writes(),
            final(pty).output() == old(pty).output(),
            final(pty).alive() == old(pty).alive(),
            final(pty).kill_count() == old(pty).kill_count(),
    {
        match pty.write(bin.as_slice()) {
            Ok(_) => Ok(false),
            Err(e) => Err(ServiceError::Pty(e)),
        }
    }

    /// Acknowledge a ping with a pong message on the connection.
    fn handle_ping_message<C: TerminalConnection>(&self, connection: &mut C) -> (r: Result<
        bool,
        ServiceError,
    >)
        requires
            old(connection).inv(),
        ensures
            final(connection).inv(),
            r is Ok <==> !old(connection).closed(),
            r is Ok ==> r == Ok::<bool, ServiceError>(false) && final(connection).sent() == old(
                connection,
            ).sent().push(MessageView::Text("Pong"@)),
            r is Err ==> final(connection).sent() == old(connection).sent(),
            final(connection).pending() == old(connection).pending(),
            final(connection).closed() == old(connection).closed(),
            final(connection).close_count() == old(connection).close_count(),
    {
        match connection.send_text("Pong") {
            Ok(_) => Ok(false),
            Err(e) => Err(ServiceError::Connection(e)),
        }
    }

    /// Handle one inbound message: text and binary payloads go to the
    /// terminal input, a ping is answered with a pong, a pong is ignored,
    /// and a close message asks the caller to end the session. The returned
    /// flag says whether the session should close.
    pub fn handle_message<C: TerminalConnection, P: Pty>(
        &self,
        message: TerminalMessage,
        connection: &mut C,
        pty: &mut P,
        _session_id: &str,
    ) -> (r: Result<bool, ServiceError>)
        requires
            old(connection).inv(),
            old(pty).inv(),
        ensures
            final(connection).inv(),
            final(pty).inv(),
            r is Ok ==> r.unwrap() == message_closes(message@),
            final(pty).writes() == (if message_writes(message@) is Some && old(pty).alive() {
                old(pty).writes().push(message_writes(message@).unwrap())
            } else {
                old(pty).writes()
            }),
            message_writes(message@) is Some ==> (r is Ok <==> old(pty).alive()),
            message_pongs(message@) ==> (r is Ok <==> !old(connection).closed()),
            message_pongs(message@) && r is Ok ==> final(connection).sent() == old(
                connection,
            ).sent().push(MessageView::Text("Pong"@)),
            !message_pongs(message@) || r is Err ==> final(connection).sent() == old(
                connection,
            ).sent(),
            message@ is Pong || message@ is Close ==> r is Ok,
            final(pty).output() == old(pty).output(),
            final(pty).alive() == old(pty).alive(),
            final(pty).kill_count() == old(pty).kill_count(),
            final(connection).pending() == old(connection).pending(),
            final(connection).closed() == old(connection).closed(),
            final(connection).close_count() == old(connection).close_count(),
    {
        match message {
            TerminalMessage::Text(text) => self.handle_text_message(text, pty),
            TerminalMessage::Binary(bin) => self.handle_binary_message(bin, pty),
            TerminalMessage::Ping(_) => self.handle_ping_message(connection),
            TerminalMessage::Pong => Ok(false),
            TerminalMessage::Close => Ok(true),
        }
    }

    /// Forward one chunk of terminal output to the client: as a text frame
    /// when the bytes are valid UTF-8, else as a binary frame, never dropped.
    pub fn handle_pty_output<C: TerminalConnection>(
        &self,
        data: &[u8],
        connection: &mut C,
        _session_id: &str,
    ) -> (r: Result<(), ServiceError>)
        requires
            old(connection).inv(),
        ensures
            final(connection).inv(),
            r is Ok <==> !old(connection).closed(),
            r is Ok ==> final(connection).sent() == old(connection).sent().push(
                pty_output_frame(data@),
            ),
            r is Err ==> final(connection).sent() == old(connection).sent(),
            final(connection).pending() == old(connection).pending(),
            final(connection).closed() == old(connection).closed(),
            final(connection).close_count() == old(connection).close_count(),
    {
        match utf8_to_string(data) {
            Some(text) => {
                match connection.send_text(text.as_str()) {
                    Ok(_) => Ok(()),
                    Err(e) => Err(ServiceError::Connection(e)),
                }
            },
            None => {
                match connection.send_binary(data) {
                    Ok(_) => Ok(()),
                    Err(e) => Err(ServiceError::Connection(e)),
                }
            },
        }
    }
}

} // verus!
