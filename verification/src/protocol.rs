//! Transport abstraction: terminal messages, connection errors, and the
//! connection interface with an in-memory binding.

use vstd::prelude::*;

verus! {

/// The normalized message set that every transport binding and the terminal
/// pump speak.
pub enum TerminalMessage {
    /// Text payload.
    Text(String),
    /// Binary payload.
    Binary(Vec<u8>),
    /// Keep-alive probe carrying its payload.
    Ping(Vec<u8>),
    /// Keep-alive acknowledgement.
    Pong,
    /// Client asks to end the session.
    Close,
}

/// Mathematical view of a terminal message: payloads as sequences.
pub enum MessageView {
    Text(Seq<char>),
    Binary(Seq<u8>),
    Ping(Seq<u8>),
    Pong,
    Close,
}

impl View for TerminalMessage {
    type V = MessageView;

    open spec fn view(&self) -> MessageView {
        match self {
            TerminalMessage::Text(t) => MessageView::Text(t@),
            TerminalMessage::Binary(b) => MessageView::Binary(b@),
            TerminalMessage::Ping(p) => MessageView::Ping(p@),
            TerminalMessage::Pong => MessageView::Pong,
            TerminalMessage::Close => MessageView::Close,
        }
    }
}

/// Copy a byte vector.
pub fn clone_bytes(v: &Vec<u8>) -> (r: Vec<u8>)
    ensures
        r@ == v@,
{
    let n = v.len();
    let mut r: Vec<u8> = Vec::new();
    let mut i: usize = 0;
    while i < n
        invariant
            0 <= i <= n,
            n == v@.len(),
            r@ =~= v@.take(i as int),
        decreases n - i,
    {
        r.push(v[i]);
        i += 1;
    }
    proof {
        assert(v@.take(n as int) =~= v@);
    }
    r
}

impl Clone for TerminalMessage {
    /// Cloning keeps the message kind and payload.
    fn clone(&self) -> (r: TerminalMessage)
        ensures
            r@ == self@,
    {
        match self {
            TerminalMessage::Text(t) => TerminalMessage::Text(t.clone()),
            TerminalMessage::Binary(b) => TerminalMessage::Binary(clone_bytes(b)),
            TerminalMessage::Ping(p) => TerminalMessage::Ping(clone_bytes(p)),
            TerminalMessage::Pong => TerminalMessage::Pong,
            TerminalMessage::Close => TerminalMessage::Close,
        }
    }
}

/// Transport-level failure.
#[derive(Debug)]
pub enum ConnectionError {
    /// Input/output fault, with its description.
    Io(String),
    /// WebSocket fault, with its description.
    WebSocket(String),
    /// WebTransport fault, with its description.
    WebTransport(String),
    /// The connection is gone.
    ConnectionClosed,
    /// A message could not be serialized.
    Serialization(String),
    /// A message could not be deserialized.
    Deserialization(String),
    /// The operation timed out.
    Timeout,
    /// Any other transport fault.
    Other(String),
}

/// Transport kind of a connection.
#[derive(Clone, Copy, Debug, PartialEq, Eq, Structural)]
pub enum ConnectionType {
    WebSocket,
    WebTransport,
}

/// A full-duplex message channel to one client.
///
/// The model of a connection is the sequence of frames handed to the
/// transport (`sent`), the inbound frames not yet delivered (`pending`),
/// whether it was closed, and how often close was invoked. The in-memory
/// binding below realizes the model; transport-backed bindings live with the
/// surrounding application.
pub trait TerminalConnection: Sized {
    /// Internal consistency of the binding.
    spec fn inv(&self) -> bool;

    /// Frames handed to the transport, oldest first.
    spec fn sent(&self) -> Seq<MessageView>;

    /// Inbound frames not yet delivered, oldest first.
    spec fn pending(&self) -> Seq<MessageView>;

    /// Whether `close` has been invoked.
    spec fn closed(&self) -> bool;

    /// How many times `close` has been invoked.
    spec fn close_count(&self) -> nat;

    /// Identifier of the connection.
    spec fn spec_id(&self) -> Seq<char>;

    /// Transport kind of the connection.
    spec fn spec_connection_type(&self) -> ConnectionType;

    /// Send a text frame; on success exactly that frame is appended to the
    /// sent frames, and a failure sends nothing.
    fn send_text(&mut self, message: &str) -> (r: Result<(), ConnectionError>)
        requires
            old(self).inv(),
        ensures
            final(self).inv(),
            r is Ok <==> !old(self).closed(),
            r is Ok ==> final(self).sent() == old(self).sent().push(MessageView::Text(message@)),
            r is Err ==> final(self).sent() == old(self).sent(),
            final(self).pending() == old(self).pending(),
            final(self).closed() == old(self).closed(),
            final(self).close_count() == old(self).close_count(),
    ;

    /// Send a binary frame; on success exactly that frame is appended to the
    /// sent frames, and a failure sends nothing.
    fn send_binary(&mut self, data: &[u8]) -> (r: Result<(), ConnectionError>)
        requires
            old(self).inv(),
        ensures
            final(self).inv(),
            r is Ok <==> !old(self).closed(),
            r is Ok ==> final(self).sent() == old(self).sent().push(MessageView::Binary(data@)),
            r is Err ==> final(self).sent() == old(self).sent(),
            final(self).pending() == old(self).pending(),
            final(self).closed() == old(self).closed(),
            final(self).close_count() == old(self).close_count(),
    ;

    /// Deliver the next inbound frame, in arrival order; `None` signals that
    /// the client side is done and nothing more will arrive.
    fn receive(&mut self) -> (r: Option<Result<TerminalMessage, ConnectionError>>)
        requires
            old(self).inv(),
        ensures
            final(self).inv(),
            old(self).pending().len() > 0 ==> {
                &&& r is Some
                &&& r.unwrap() is Ok
                &&& r.unwrap().unwrap()@ == old(self).pending()[0]
                &&& final(self).pending() == old(self).pending().skip(1)
            },
            old(self).pending().len() == 0 ==> r is None && final(self).pending() == old(
                self,
            ).pending(),
            final(self).sent() == old(self).sent(),
            final(self).closed() == old(self).closed(),
            final(self).close_count() == old(self).close_count(),
    ;

    /// Close the connection. Closing an already-closed connection succeeds.
    fn close(&mut self) -> (r: Result<(), ConnectionError>)
        requires
            old(self).inv(),
        ensures
            final(self).inv(),
            old(self).closed() ==> r is Ok,
            final(self).closed(),
            final(self).close_count() == (if old(self).close_count() < u64::MAX {
                old(self).close_count() + 1
            } else {
                old(self).close_count()
            }),
            final(self).sent() == old(self).sent(),
            final(self).pending() == old(self).pending(),
    ;

    /// Identifier of the connection.
    fn id(&self) -> (r: &str)
        ensures
            r@ == self.spec_id(),
    ;

    /// Transport kind of the connection.
    fn connection_type(&self) -> (r: ConnectionType)
        ensures
            r == self.spec_connection_type(),
    ;

    /// Whether the connection is still usable.
    fn is_alive(&self) -> (r: bool)
        ensures
            r == !self.closed(),
    ;
}

/// Shared plumbing for transport bindings: the identifier and transport kind
/// beside the transport's own state.
pub struct ConnectionBase<T> {
    /// Connection identifier.
    pub id: String,
    /// Transport kind.
    pub conn_type: ConnectionType,
    /// Transport-specific state.
    pub inner: T,
}

impl<T> ConnectionBase<T> {
    /// Bundle an identifier and transport kind with transport state.
    pub fn new(id: String, conn_type: ConnectionType, inner: T) -> (r: ConnectionBase<T>)
        ensures
            r.id == id,
            r.conn_type == conn_type,
            r.inner == inner,
    {
        ConnectionBase { id, conn_type, inner }
    }

    /// The transport state.
    pub fn inner(&self) -> (r: &T)
        ensures
            r == &self.inner,
    {
        &self.inner
    }

    /// The transport state, for mutation: what the caller writes through the
    /// reference is what the base ends up holding, and the identifier and
    /// transport kind stay as they were.
    pub fn inner_mut(&mut self) -> (r: &mut T)
        ensures
            *r == old(self).inner,
            final(self).inner == *final(r),
            final(self).id == old(self).id,
            final(self).conn_type == old(self).conn_type,
    {
        &mut self.inner
    }
}

/// In-memory connection: a scripted inbound queue and a recording outbound
/// queue. It is the verified binding of [`TerminalConnection`] and stands in
/// for a transport in proofs and tests.
pub struct MemoryConnection {
    /// Connection identifier.
    pub id: String,
    /// Transport kind reported to callers.
    pub conn_type: ConnectionType,
    /// Scripted inbound frames.
    pub inbound: Vec<TerminalMessage>,
    /// Index of the next inbound frame to deliver.
    pub cursor: usize,
    /// Frames handed to the "transport", oldest first.
    pub outbound: Vec<TerminalMessage>,
    /// Whether close has been invoked.
    pub closed_flag: bool,
    /// How many times close has been invoked.
    pub close_calls: u64,
}

impl MemoryConnection {
    /// A connection that will deliver `script` in order and then report the
    /// client gone.
    pub fn new(id: String, conn_type: ConnectionType, script: Vec<TerminalMessage>) -> (r:
        MemoryConnection)
        ensures
            r.inv(),
            r.pending() == script@.map_values(|m: TerminalMessage| m@),
            r.sent() == Seq::<MessageView>::empty(),
            !r.closed(),
            r.close_count() == 0,
            r.spec_id() == id@,
    {
        let r = MemoryConnection {
            id,
            conn_type,
            inbound: script,
            cursor: 0,
            outbound: Vec::new(),
            closed_flag: false,
            close_calls: 0,
        };
        proof {
            assert(r.inbound@.skip(0) =~= r.inbound@);
        }
        r
    }
}

impl TerminalConnection for MemoryConnection {
    open spec fn inv(&self) -> bool {
        self.cursor <= self.inbound@.len()
    }

    open spec fn sent(&self) -> Seq<MessageView> {
        self.outbound@.map_values(|m: TerminalMessage| m@)
    }

    open spec fn pending(&self) -> Seq<MessageView> {
        self.inbound@.skip(self.cursor as int).map_values(|m: TerminalMessage| m@)
    }

    open spec fn closed(&self) -> bool {
        self.closed_flag
    }

    open spec fn close_count(&self) -> nat {
        self.close_calls as nat
    }

    open spec fn spec_id(&self) -> Seq<char> {
        self.id@
    }

    open spec fn spec_connection_type(&self) -> ConnectionType {
        self.conn_type
    }

    fn send_text(&mut self, message: &str) -> (r: Result<(), ConnectionError>) {
        if self.closed_flag {
            return Err(ConnectionError::ConnectionClosed);
        }
        let ghost sent_old = self.sent();
        self.outbound.push(TerminalMessage::Text(message.to_owned()));
        proof {
            assert(self.sent() =~= sent_old.push(MessageView::Text(message@)));
        }
        Ok(())
    }

    fn send_binary(&mut self, data: &[u8]) -> (r: Result<(), ConnectionError>) {
        if self.closed_flag {
            return Err(ConnectionError::ConnectionClosed);
        }
        let ghost sent_old = self.sent();
        self.outbound.push(TerminalMessage::Binary(vstd::slice::slice_to_vec(data)));
        proof {
            assert(self.sent() =~= sent_old.push(MessageView::Binary(data@)));
        }
        Ok(())
    }

    fn receive(&mut self) -> (r: Option<Result<TerminalMessage, ConnectionError>>) {
        if self.cursor < self.inbound.len() {
            let ghost pending_old = self.pending();
            let msg = self.inbound[self.cursor].clone();
            self.cursor = self.cursor + 1;
            proof {
                assert(pending_old[0] == self.inbound@[old(self).cursor as int]@);
                assert(self.pending() =~= pending_old.skip(1));
            }
            Some(Ok(msg))
        } else {
            None
        }
    }

    fn close(&mut self) -> (r: Result<(), ConnectionError>) {
        self.closed_flag = true;
        if self.close_calls < u64::MAX {
            self.close_calls = self.close_calls + 1;
        }
        Ok(())
    }

    fn id(&self) -> (r: &str) {
        self.id.as_str()
    }

    fn connection_type(&self) -> ConnectionType {
        self.conn_type
    }

    fn is_alive(&self) -> (r: bool) {
        !self.closed_flag
    }
}

} // verus!
