//! The upgraded connection: its messages, the upgrade request, and the
//! state of a connection between network reads and writes.
//!
//! The library holds the receive buffer and says what to do next; the caller
//! owns the stream, reads from it and writes to it.

use vstd::prelude::*;
use vstd::utf8::encode_utf8;
use bytes::BytesMut;
use crate::buffer::{buffer_extend, buffer_with_capacity, buffered};
use crate::error::{Error, ErrorView};
use crate::extractors::{Extract, FromRequest};
use crate::frame::{decode_frame, encode_frame, fault_error, spec_decode, spec_encode, Decoded};
use crate::req::Req;
use crate::res::{Res, ResView};

verus! {

/// Status code and reason of a close frame.
#[derive(Debug, Clone, PartialEq, Eq)]
pub struct CloseFrame {
    /// Status code, such as 1000 for a normal closure.
    pub code: u16,
    /// Reason text; may be empty.
    pub reason: String,
}

/// One message of the protocol. Each travels in a single frame.
#[derive(Debug, Clone, PartialEq, Eq)]
pub enum Message {
    /// UTF-8 text.
    Text(String),
    /// Binary data.
    Binary(Vec<u8>),
    /// Ping control frame.
    Ping(Vec<u8>),
    /// Pong control frame.
    Pong(Vec<u8>),
    /// Close control frame, with or without status and reason.
    Close(Option<CloseFrame>),
}

/// The mathematical value of a [`CloseFrame`].
pub struct CloseFrameView {
    pub code: u16,
    pub reason: Seq<char>,
}

/// The mathematical value of a [`Message`].
pub enum MessageView {
    Text(Seq<char>),
    Binary(Seq<u8>),
    Ping(Seq<u8>),
    Pong(Seq<u8>),
    Close(Option<CloseFrameView>),
}

impl View for CloseFrame {
    type V = CloseFrameView;

    open spec fn view(&self) -> CloseFrameView {
        CloseFrameView { code: self.code, reason: self.reason@ }
    }
}

impl View for Message {
    type V = MessageView;

    open spec fn view(&self) -> MessageView {
        match *self {
            Message::Text(text) => MessageView::Text(text@),
            Message::Binary(data) => MessageView::Binary(data@),
            Message::Ping(data) => MessageView::Ping(data@),
            Message::Pong(data) => MessageView::Pong(data@),
            Message::Close(frame) => MessageView::Close(
                match frame {
                    Some(f) => Some(f@),
                    None => None,
                },
            ),
        }
    }
}

impl MessageView {
    /// The opcode that a message travels under.
    pub open spec fn opcode(self) -> u8 {
        match self {
            MessageView::Text(_) => 0x1,
            MessageView::Binary(_) => 0x2,
            MessageView::Close(_) => 0x8,
            MessageView::Ping(_) => 0x9,
            MessageView::Pong(_) => 0xA,
        }
    }

    /// The payload bytes of a message: text as UTF-8, data as it is, and for
    /// a close frame the status code in two big-endian bytes followed by the
    /// reason as UTF-8, or nothing where there is no status.
    pub open spec fn payload(self) -> Seq<u8> {
        match self {
            MessageView::Text(text) => encode_utf8(text),
            MessageView::Binary(data) => data,
            MessageView::Ping(data) => data,
            MessageView::Pong(data) => data,
            MessageView::Close(None) => Seq::empty(),
            MessageView::Close(Some(f)) => seq![(f.code / 256) as u8, (f.code % 256) as u8]
                + encode_utf8(f.reason),
        }
    }
}

/// A request to upgrade the connection, checked: it holds the handshake key.
pub struct WebSocketUpgrade {
    key: String,
}

impl WebSocketUpgrade {
    /// The handshake key that the client sent.
    pub closed spec fn spec_key(&self) -> Seq<char> {
        self.key@
    }

    /// The handshake key that the client sent.
    pub fn key(&self) -> (key: &str)
        ensures
            key@ == self.spec_key(),
    {
        self.key.as_str()
    }

    /// The response that switches protocols. `accept` is the token that the
    /// calling layer derived from the handshake key.
    pub fn upgrade(self, accept: &str) -> (res: Res)
        ensures
            res@ == (ResView { status: 101, headers: Seq::empty(), body: Seq::empty() }).with_header(
                "Upgrade"@,
                "websocket"@,
            ).with_header("Connection"@, "Upgrade"@).with_header("Sec-WebSocket-Accept"@, accept@),
    {
        Res::status(101).with_header("Upgrade", "websocket").with_header(
            "Connection",
            "Upgrade",
        ).with_header("Sec-WebSocket-Accept", accept)
    }
}

/// What checking an upgrade request gives: the handshake key, or the error
/// for a request that does not ask for the upgrade or has no key that reads
/// as text.
pub open spec fn upgrade_outcome(req: &Req) -> Result<Seq<char>, ErrorView> {
    if !req.spec_is_websocket_upgrade() {
        Err(ErrorView::Custom("Not a WebSocket upgrade request"@))
    } else {
        match req.spec_header("sec-websocket-key"@) {
            Some(key) => Ok(key),
            None => Err(ErrorView::Custom("Missing Sec-WebSocket-Key header"@)),
        }
    }
}

impl<S> FromRequest<S> for WebSocketUpgrade {
    /// Succeeds where the request carries the upgrade headers and a
    /// handshake key; the request is left alone.
    fn from_request(req: &mut Req, state: &S) -> (res: Result<Extract<Self>, Error>)
        ensures
            match upgrade_outcome(old(req)) {
                Ok(key) => res matches Ok(Extract::Done(upgrade)) && upgrade.spec_key() == key,
                Err(error) => res matches Err(e) && e@ == error,
            },
            *final(req) == *old(req),
    {
        if !req.is_websocket_upgrade() {
            return Err(Error::custom("Not a WebSocket upgrade request"));
        }
        match req.websocket_key() {
            Some(key) => Ok(Extract::Done(WebSocketUpgrade { key })),
            None => Err(Error::custom("Missing Sec-WebSocket-Key header")),
        }
    }
}

/// What receiving gives when it does not fail.
#[derive(Debug, Clone, PartialEq, Eq)]
pub enum Received {
    /// A whole message.
    Message(Message),
    /// No whole frame is buffered: read from the network and feed the bytes.
    NeedData,
    /// The connection is closed.
    Closed,
}

/// One end of an upgraded connection, between reads and writes.
pub struct WebSocket {
    buffer: BytesMut,
    closed: bool,
}

/// The value of a [`WebSocket`]: the bytes received and not yet decoded, and
/// whether the connection is closed.
pub struct WebSocketView {
    pub pending: Seq<u8>,
    pub closed: bool,
}

impl View for WebSocket {
    type V = WebSocketView;

    closed spec fn view(&self) -> WebSocketView {
        WebSocketView { pending: buffered(self.buffer), closed: self.closed }
    }
}

/// The outcome of receiving in some state.
pub struct Receipt {
    pub after: WebSocketView,
    pub answer: Result<ReceivedView, ErrorView>,
}

/// The value of a [`Received`].
pub enum ReceivedView {
    Message(MessageView),
    NeedData,
    Closed,
}

impl WebSocketView {
    /// Receiving. A closed connection stays closed. An open one decodes one
    /// frame where a whole frame is buffered, and takes it off the buffer; a
    /// close frame closes the connection. Otherwise more data is needed.
    pub open spec fn receive(self) -> Receipt {
        if self.closed {
            Receipt { after: self, answer: Ok(ReceivedView::Closed) }
        } else {
            match spec_decode(self.pending) {
                Decoded::Incomplete => Receipt { after: self, answer: Ok(ReceivedView::NeedData) },
                Decoded::Frame { used, outcome } => Receipt {
                    after: WebSocketView {
                        pending: self.pending.subrange(used as int, self.pending.len() as int),
                        closed: outcome matches Ok(MessageView::Close(_)),
                    },
                    answer: match outcome {
                        Ok(message) => Ok(ReceivedView::Message(message)),
                        Err(fault) => Err(fault_error(fault)),
                    },
                },
            }
        }
    }

    /// Feeding the bytes of one network read. A read of no bytes means that
    /// the peer is gone: the connection closes. Bytes fed to a closed
    /// connection are dropped.
    pub open spec fn feed(self, data: Seq<u8>) -> WebSocketView {
        if self.closed {
            self
        } else if data.len() == 0 {
            WebSocketView { closed: true, ..self }
        } else {
            WebSocketView { pending: self.pending + data, ..self }
        }
    }
}

impl Received {
    /// The value of an answer.
    pub open spec fn view(&self) -> ReceivedView {
        match *self {
            Received::Message(message) => ReceivedView::Message(message@),
            Received::NeedData => ReceivedView::NeedData,
            Received::Closed => ReceivedView::Closed,
        }
    }
}

impl WebSocket {
    /// An open connection that has received nothing yet.
    pub fn new() -> (socket: Self)
        ensures
            socket@ == (WebSocketView { pending: Seq::empty(), closed: false }),
    {
        Self { buffer: buffer_with_capacity(8192), closed: false }
    }

    /// Whether the connection is closed.
    pub fn is_closed(&self) -> (closed: bool)
        ensures
            closed == self@.closed,
    {
        self.closed
    }

    /// The frame to write for a text message.
    pub fn send_text(&self, text: &str) -> (res: Result<Vec<u8>, Error>)
        ensures
            res matches Ok(frame) && frame@ == spec_encode(MessageView::Text(text@)),
    {
        self.send(Message::Text(text.to_owned()))
    }

    /// The frame to write for a binary message.
    pub fn send_binary(&self, data: Vec<u8>) -> (res: Result<Vec<u8>, Error>)
        ensures
            res matches Ok(frame) && frame@ == spec_encode(MessageView::Binary(data@)),
    {
        self.send(Message::Binary(data))
    }

    /// The frame to write for a message.
    pub fn send(&self, message: Message) -> (res: Result<Vec<u8>, Error>)
        ensures
            res matches Ok(frame) && frame@ == spec_encode(message@),
    {
        encode_frame(&message)
    }

    /// Receives one message from what is buffered, or says that more data is
    /// needed or that the connection is closed.
    pub fn receive(&mut self) -> (res: Result<Received, Error>)
        ensures
            final(self)@ == old(self)@.receive().after,
            match old(self)@.receive().answer {
                Ok(answer) => res matches Ok(received) && received@ == answer,
                Err(error) => res matches Err(e) && e@ == error,
            },
    {
        if self.closed {
            return Ok(Received::Closed);
        }
        match decode_frame(&mut self.buffer) {
            Ok(Some(message)) => {
                if let Message::Close(_) = &message {
                    self.closed = true;
                }
                Ok(Received::Message(message))
            },
            Ok(None) => Ok(Received::NeedData),
            Err(e) => Err(e),
        }
    }

    /// Feeds the bytes of one network read; a read of no bytes closes the
    /// connection.
    pub fn feed(&mut self, data: &[u8])
        ensures
            final(self)@ == old(self)@.feed(data@),
    {
        if self.closed {
            return ;
        }
        if data.len() == 0 {
            self.closed = true;
        } else {
            buffer_extend(&mut self.buffer, data);
        }
    }

    /// The frame to write to close the connection without a status.
    pub fn close(self) -> (res: Result<Vec<u8>, Error>)
        ensures
            res matches Ok(frame) && frame@ == spec_encode(MessageView::Close(None)),
    {
        self.send(Message::Close(None))
    }

    /// The frame to write to close the connection with a status code and a
    /// reason.
    pub fn close_with(self, code: u16, reason: &str) -> (res: Result<Vec<u8>, Error>)
        ensures
            res matches Ok(frame) && frame@ == spec_encode(
                MessageView::Close(Some(CloseFrameView { code, reason: reason@ })),
            ),
    {
        self.send(Message::Close(Some(CloseFrame { code, reason: reason.to_owned() })))
    }
}

} // verus!
