//! The messages that the two ends of a tunnel exchange.

use vstd::prelude::*;

verus! {

/// A WebSocket message. A close message may carry a code and a reason; no
/// decision depends on them, so they are left out, as are the contents of a raw
/// frame.
#[derive(Debug, PartialEq, Eq)]
pub enum Message {
    Text(String),
    Binary(Vec<u8>),
    Ping(Vec<u8>),
    Pong(Vec<u8>),
    Close,
    Frame,
}

/// A WebSocket message as a mathematical value.
pub enum MessageView {
    Text(Seq<char>),
    Binary(Seq<u8>),
    Ping(Seq<u8>),
    Pong(Seq<u8>),
    Close,
    Frame,
}

impl View for Message {
    type V = MessageView;

    open spec fn view(&self) -> MessageView {
        match self {
            Message::Text(s) => MessageView::Text(s@),
            Message::Binary(d) => MessageView::Binary(d@),
            Message::Ping(d) => MessageView::Ping(d@),
            Message::Pong(d) => MessageView::Pong(d@),
            Message::Close => MessageView::Close,
            Message::Frame => MessageView::Frame,
        }
    }
}

/// What a gRPC tunnel message says.
#[derive(Debug, PartialEq, Eq)]
pub enum MessageType {
    Init { uuid: String, protocol: String },
    Data { payload: Vec<u8> },
    Ping { timestamp: i64 },
    Pong { timestamp: i64 },
    Close { reason: String },
}

/// A gRPC tunnel message; one without a type can arrive and says nothing.
#[derive(Debug, PartialEq, Eq)]
pub struct TunnelMessage {
    pub message_type: Option<MessageType>,
}

/// What a gRPC tunnel message says, as a mathematical value.
pub enum MessageTypeView {
    Init { uuid: Seq<char>, protocol: Seq<char> },
    Data { payload: Seq<u8> },
    Ping { timestamp: i64 },
    Pong { timestamp: i64 },
    Close { reason: Seq<char> },
}

impl View for MessageType {
    type V = MessageTypeView;

    open spec fn view(&self) -> MessageTypeView {
        match self {
            MessageType::Init { uuid, protocol } => MessageTypeView::Init {
                uuid: uuid@,
                protocol: protocol@,
            },
            MessageType::Data { payload } => MessageTypeView::Data { payload: payload@ },
            MessageType::Ping { timestamp } => MessageTypeView::Ping { timestamp: *timestamp },
            MessageType::Pong { timestamp } => MessageTypeView::Pong { timestamp: *timestamp },
            MessageType::Close { reason } => MessageTypeView::Close { reason: reason@ },
        }
    }
}

impl View for TunnelMessage {
    type V = Option<MessageTypeView>;

    open spec fn view(&self) -> Option<MessageTypeView> {
        match self.message_type {
            Some(t) => Some(t@),
            None => None,
        }
    }
}

/// The message that carries a piece of data through a gRPC tunnel.
pub fn data_message(payload: Vec<u8>) -> (m: TunnelMessage)
    ensures
        m@ == Some(MessageTypeView::Data { payload: payload@ }),
{
    TunnelMessage { message_type: Some(MessageType::Data { payload }) }
}

/// The answer to a gRPC ping: a pong of the same time.
pub fn pong_message(timestamp: i64) -> (m: TunnelMessage)
    ensures
        m@ == Some(MessageTypeView::Pong { timestamp }),
{
    TunnelMessage { message_type: Some(MessageType::Pong { timestamp }) }
}

/// The message that ends a gRPC tunnel from the server's side.
pub fn close_message() -> (m: TunnelMessage)
    ensures
        m@ == Some(MessageTypeView::Close { reason: "Connection closed"@ }),
{
    TunnelMessage {
        message_type: Some(MessageType::Close { reason: "Connection closed".to_owned() }),
    }
}

/// The mathematical value of a WebSocket message holds all of its contents.
pub proof fn what_a_message_holds(m: Message)
    ensures
        match m {
            Message::Text(s) => m@ == MessageView::Text(s@),
            Message::Binary(d) => m@ == MessageView::Binary(d@),
            Message::Ping(d) => m@ == MessageView::Ping(d@),
            Message::Pong(d) => m@ == MessageView::Pong(d@),
            Message::Close => m@ is Close,
            Message::Frame => m@ is Frame,
        },
{
}

/// The mathematical value of a gRPC tunnel message holds all of its contents.
pub proof fn what_a_tunnel_message_holds(m: TunnelMessage)
    ensures
        match m.message_type {
            None => m@ is None,
            Some(MessageType::Init { uuid, protocol }) => m@ == Some(
                MessageTypeView::Init { uuid: uuid@, protocol: protocol@ },
            ),
            Some(MessageType::Data { payload }) => m@ == Some(
                MessageTypeView::Data { payload: payload@ },
            ),
            Some(MessageType::Ping { timestamp }) => m@ == Some(
                MessageTypeView::Ping { timestamp },
            ),
            Some(MessageType::Pong { timestamp }) => m@ == Some(
                MessageTypeView::Pong { timestamp },
            ),
            Some(MessageType::Close { reason }) => m@ == Some(
                MessageTypeView::Close { reason: reason@ },
            ),
        },
{
}

} // verus!
