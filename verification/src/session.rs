//! What a running connection observes, shared by clients and a server's peers.
use vstd::prelude::*;
use crate::types::{MessageView, WsMessage};

verus! {

/// Something that happened on a running connection.
#[derive(Debug)]
pub enum SessionEvent {
    /// The connection's outgoing queue handed over a message to write.
    Queued(WsMessage),
    /// The outgoing queue has no sender left.
    QueueClosed,
    /// Writing a message to the socket failed, with this error.
    WriteFailed(String),
    /// A message was read from the socket.
    Received(WsMessage),
    /// A raw frame was read that carries nothing for the user.
    ReceivedRaw,
    /// Reading from the socket failed, with this error.
    ReadFailed(String),
    /// The socket has no more messages.
    ReadEnded,
    /// The answer to a ping could not be queued.
    PongRejected,
}

/// The view of a [`SessionEvent`].
pub enum SessionEventView {
    Queued(MessageView),
    QueueClosed,
    WriteFailed(Seq<char>),
    Received(MessageView),
    ReceivedRaw,
    ReadFailed(Seq<char>),
    ReadEnded,
    PongRejected,
}

impl View for SessionEvent {
    type V = SessionEventView;

    open spec fn view(&self) -> SessionEventView {
        match self {
            SessionEvent::Queued(m) => SessionEventView::Queued(m@),
            SessionEvent::QueueClosed => SessionEventView::QueueClosed,
            SessionEvent::WriteFailed(e) => SessionEventView::WriteFailed(e@),
            SessionEvent::Received(m) => SessionEventView::Received(m@),
            SessionEvent::ReceivedRaw => SessionEventView::ReceivedRaw,
            SessionEvent::ReadFailed(e) => SessionEventView::ReadFailed(e@),
            SessionEvent::ReadEnded => SessionEventView::ReadEnded,
            SessionEvent::PongRejected => SessionEventView::PongRejected,
        }
    }
}

/// What a connection does in answer to one event: the effects to carry out,
/// in order, and whether the connection is over.
#[derive(Debug)]
pub struct Reaction<E> {
    pub effects: Vec<E>,
    pub finished: bool,
}

/// The one-element sequence of `x` when `present` holds, else the empty one.
pub open spec fn present_if<A>(present: bool, x: A) -> Seq<A> {
    if present {
        seq![x]
    } else {
        Seq::empty()
    }
}

} // verus!
