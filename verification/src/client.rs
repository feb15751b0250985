//! A WebSocket client: its options and connection, the calls that send on it,
//! and how a running connection reacts to what happens on it.
use vstd::prelude::*;
use tokio_tungstenite::tungstenite::http::Request;
use crate::message::{
    abnormal_close, abnormal_close_event, close_event, close_event_for, close_message, close_code_for, close_reason_for,
    message_for_payload, payload_message, ping_bytes, ping_message, MAX_CONTROL_PAYLOAD,
};
use crate::request::{connect_request, request_built};
use crate::session::{present_if, Reaction, SessionEvent, SessionEventView};
use crate::types::{
    config_headers, CloseEventView, CloseFrameView, ErrorStatus, ErrorView, MessageView,
    NativeClientConfig, NativeCloseEvent, NativeError, Payload, PayloadView, WsMessage,
};

verus! {

/// Which listeners a client had registered when its connection opened.
#[derive(Clone, Copy, Debug)]
pub struct ClientListeners {
    pub open: bool,
    pub error: bool,
    pub message: bool,
    pub close: bool,
    pub ping: bool,
    pub pong: bool,
}

/// Something a client's connection does.
#[derive(Debug)]
pub enum ClientEffect {
    /// Write this message to the socket.
    Write(WsMessage),
    /// Tell the open listener that the connection is open.
    NotifyOpen,
    /// Tell the message listener what arrived.
    NotifyMessage(Payload),
    /// Tell the ping listener what a ping carried.
    NotifyPing(Vec<u8>),
    /// Tell the pong listener what a pong carried.
    NotifyPong(Vec<u8>),
    /// Queue a pong carrying these bytes.
    QueuePong(Vec<u8>),
    /// Tell the close listener how the connection closed.
    NotifyClose(NativeCloseEvent),
    /// Tell the error listener what went wrong.
    NotifyError(String),
    /// Detach the connection's writer from the client.
    Disconnect,
}

/// The view of a [`ClientEffect`].
pub enum ClientEffectView {
    Write(MessageView),
    NotifyOpen,
    NotifyMessage(PayloadView),
    NotifyPing(Seq<u8>),
    NotifyPong(Seq<u8>),
    QueuePong(Seq<u8>),
    NotifyClose(CloseEventView),
    NotifyError(Seq<char>),
    Disconnect,
}

impl View for ClientEffect {
    type V = ClientEffectView;

    open spec fn view(&self) -> ClientEffectView {
        match self {
            ClientEffect::Write(m) => ClientEffectView::Write(m@),
            ClientEffect::NotifyOpen => ClientEffectView::NotifyOpen,
            ClientEffect::NotifyMessage(p) => ClientEffectView::NotifyMessage(p@),
            ClientEffect::NotifyPing(b) => ClientEffectView::NotifyPing(b@),
            ClientEffect::NotifyPong(b) => ClientEffectView::NotifyPong(b@),
            ClientEffect::QueuePong(b) => ClientEffectView::QueuePong(b@),
            ClientEffect::NotifyClose(e) => ClientEffectView::NotifyClose(e@),
            ClientEffect::NotifyError(e) => ClientEffectView::NotifyError(e@),
            ClientEffect::Disconnect => ClientEffectView::Disconnect,
        }
    }
}

/// The views of a sequence of client effects.
pub open spec fn client_effects_view(s: Seq<ClientEffect>) -> Seq<ClientEffectView> {
    s.map_values(|e: ClientEffect| e@)
}

/// The effects of a client connection that has just opened.
pub open spec fn client_opening(l: ClientListeners) -> Seq<ClientEffectView> {
    present_if(l.open, ClientEffectView::NotifyOpen)
}

/// How a client's connection reacts to one event: its effects, and whether
/// the connection is over. A ping is always answered with a pong carrying its
/// bytes; a close frame, a failure or the end of either direction ends the
/// connection and detaches its writer.
pub open spec fn client_reaction(l: ClientListeners, e: SessionEventView) -> (
    Seq<ClientEffectView>,
    bool,
) {
    match e {
        SessionEventView::Queued(m) => (seq![ClientEffectView::Write(m)], false),
        SessionEventView::QueueClosed => (seq![ClientEffectView::Disconnect], true),
        SessionEventView::WriteFailed(s) => (
            present_if(l.error, ClientEffectView::NotifyError(s)) + seq![ClientEffectView::Disconnect],
            true,
        ),
        SessionEventView::Received(m) => match m {
            MessageView::Text(s) => (
                present_if(l.message, ClientEffectView::NotifyMessage(PayloadView::Text(s))),
                false,
            ),
            MessageView::Binary(b) => (
                present_if(l.message, ClientEffectView::NotifyMessage(PayloadView::Binary(b))),
                false,
            ),
            MessageView::Ping(b) => (
                present_if(l.ping, ClientEffectView::NotifyPing(b)) + seq![ClientEffectView::QueuePong(b)],
                false,
            ),
            MessageView::Pong(b) => (present_if(l.pong, ClientEffectView::NotifyPong(b)), false),
            MessageView::Close(f) => (
                present_if(l.close, ClientEffectView::NotifyClose(close_event_for(f)))
                    + seq![ClientEffectView::Disconnect],
                true,
            ),
        },
        SessionEventView::ReceivedRaw => (Seq::empty(), false),
        SessionEventView::ReadFailed(s) => (
            present_if(l.error, ClientEffectView::NotifyError(s)) + seq![ClientEffectView::Disconnect],
            true,
        ),
        SessionEventView::ReadEnded => (
            present_if(l.close, ClientEffectView::NotifyClose(abnormal_close_event()))
                + seq![ClientEffectView::Disconnect],
            true,
        ),
        SessionEventView::PongRejected => (seq![ClientEffectView::Disconnect], true),
    }
}

/// The running connection of a client: the listeners it reports to, and
/// whether it is over.
#[derive(Debug)]
pub struct ClientSession {
    listeners: ClientListeners,
    finished: bool,
}

/// Appends an effect to a list, keeping its view in step.
fn push_client_effect(effects: &mut Vec<ClientEffect>, e: ClientEffect)
    ensures
        client_effects_view(final(effects)@) == client_effects_view(old(effects)@).push(e@),
{
    effects.push(e);
    assert(client_effects_view(effects@) =~= client_effects_view(old(effects)@).push(e@));
}

impl ClientSession {
    /// The listeners the connection reports to.
    pub closed spec fn listeners(&self) -> ClientListeners {
        self.listeners
    }

    /// Whether the connection is over.
    pub closed spec fn finished(&self) -> bool {
        self.finished
    }

    /// A connection that has just opened, reporting to these listeners.
    pub fn new(listeners: ClientListeners) -> (s: ClientSession)
        ensures
            s.listeners() == listeners,
            !s.finished(),
    {
        ClientSession { listeners, finished: false }
    }

    /// Whether the connection is over.
    pub fn is_finished(&self) -> (r: bool)
        ensures
            r == self.finished(),
    {
        self.finished
    }

    /// The effects of the connection's opening.
    pub fn opening(&self) -> (r: Vec<ClientEffect>)
        ensures
            client_effects_view(r@) == client_opening(self.listeners()),
            client_effects_view(r@) == (if self.listeners().open {
                seq![ClientEffectView::NotifyOpen]
            } else {
                Seq::<ClientEffectView>::empty()
            }),
    {
        let mut effects: Vec<ClientEffect> = Vec::new();
        if self.listeners.open {
            push_client_effect(&mut effects, ClientEffect::NotifyOpen);
        }
        assert(client_effects_view(effects@) =~= client_opening(self.listeners()));
        effects
    }

    /// How the connection reacts to one event.
    pub fn handle(&mut self, event: SessionEvent) -> (r: Reaction<ClientEffect>)
        requires
            !old(self).finished(),
        ensures
            (client_effects_view(r.effects@), r.finished) == client_reaction(
                old(self).listeners(),
                event@,
            ),
            final(self).finished() == r.finished,
            final(self).listeners() == old(self).listeners(),
    {
        let l = self.listeners;
        let ghost ev = event@;
        let mut effects: Vec<ClientEffect> = Vec::new();
        let mut finished = false;
        match event {
            SessionEvent::Queued(m) => {
                push_client_effect(&mut effects, ClientEffect::Write(m));
            },
            SessionEvent::QueueClosed => {
                finished = true;
            },
            SessionEvent::WriteFailed(e) => {
                if l.error {
                    push_client_effect(&mut effects, ClientEffect::NotifyError(e));
                }
                finished = true;
            },
            SessionEvent::Received(m) => match m {
                WsMessage::Text(s) => {
                    if l.message {
                        push_client_effect(&mut effects, ClientEffect::NotifyMessage(Payload::Text(s)));
                    }
                },
                WsMessage::Binary(b) => {
                    if l.message {
                        push_client_effect(
                            &mut effects,
                            ClientEffect::NotifyMessage(Payload::Binary(b)),
                        );
                    }
                },
                WsMessage::Ping(b) => {
                    if l.ping {
                        let copy = crate::types::copy_bytes(&b);
                        push_client_effect(&mut effects, ClientEffect::NotifyPing(copy));
                    }
                    push_client_effect(&mut effects, ClientEffect::QueuePong(b));
                },
                WsMessage::Pong(b) => {
                    if l.pong {
                        push_client_effect(&mut effects, ClientEffect::NotifyPong(b));
                    }
                },
                WsMessage::Close(f) => {
                    if l.close {
                        push_client_effect(&mut effects, ClientEffect::NotifyClose(close_event(f)));
                    }
                    finished = true;
                },
            },
            SessionEvent::ReceivedRaw => {},
            SessionEvent::ReadFailed(e) => {
                if l.error {
                    push_client_effect(&mut effects, ClientEffect::NotifyError(e));
                }
                finished = true;
            },
            SessionEvent::ReadEnded => {
                if l.close {
                    push_client_effect(&mut effects, ClientEffect::NotifyClose(abnormal_close()));
                }
                finished = true;
            },
            SessionEvent::PongRejected => {
                finished = true;
            },
        }
        if finished {
            push_client_effect(&mut effects, ClientEffect::Disconnect);
        }
        proof {
            let expected = client_reaction(l, ev);
            assert(client_effects_view(effects@) =~= expected.0);
        }
        self.finished = finished;
        Reaction { effects, finished }
    }
}

/// What sending a payload on a client gives: the message for it when the
/// client is connected, else a failure.
pub open spec fn client_send_outcome(connected: bool, data: PayloadView) -> Result<
    MessageView,
    ErrorView,
> {
    if connected {
        Ok(payload_message(data))
    } else {
        Err(not_connected())
    }
}

/// What pinging on a client gives: the payload is checked first, then the
/// connection.
pub open spec fn client_ping_outcome(connected: bool, bytes: Seq<u8>) -> Result<
    MessageView,
    ErrorView,
> {
    if bytes.len() > MAX_CONTROL_PAYLOAD {
        Err(ErrorView { status: ErrorStatus::InvalidArg, reason: "Ping payload exceeds 125 bytes"@ })
    } else if connected {
        Ok(MessageView::Ping(bytes))
    } else {
        Err(not_connected())
    }
}

/// What closing a client gives: the close message when the client is
/// connected, else a failure.
pub open spec fn client_close_outcome(connected: bool, code: u16, reason: Seq<char>) -> Result<
    MessageView,
    ErrorView,
> {
    if connected {
        Ok(MessageView::Close(Some(CloseFrameView { code, reason })))
    } else {
        Err(not_connected())
    }
}

/// The failure of a call on a client whose connection is not open.
pub open spec fn not_connected() -> ErrorView {
    ErrorView { status: ErrorStatus::GenericFailure, reason: "WebSocket is not connected"@ }
}

/// The view of what a sending call gives: the message and where it goes, or
/// the failure.
pub open spec fn routed_view<W>(r: Result<(&W, WsMessage), NativeError>) -> Result<
    MessageView,
    ErrorView,
> {
    match r {
        Ok((_, m)) => Ok(m@),
        Err(e) => Err(e@),
    }
}

/// A client: the URL it connects to, its options, and the writer of its open
/// connection, if any.
#[derive(Debug)]
pub struct NativeWebSocketClient<W> {
    url: String,
    config: Option<NativeClientConfig>,
    writer: Option<W>,
}

impl<W> NativeWebSocketClient<W> {
    /// The URL the client connects to.
    pub closed spec fn url(&self) -> Seq<char> {
        self.url@
    }

    /// The headers the client adds to its opening request.
    pub closed spec fn headers(&self) -> Seq<(Seq<char>, Seq<char>)> {
        config_headers(self.config)
    }

    /// The writer of the client's open connection, if any.
    pub closed spec fn writer(&self) -> Option<W> {
        self.writer
    }

    /// A client for a URL and options, not yet connected.
    pub fn new(url: String, config: Option<NativeClientConfig>) -> (c: Self)
        ensures
            c.url() == url@,
            c.headers() == config_headers(config),
            c.writer() is None,
    {
        NativeWebSocketClient { url, config, writer: None }
    }

    /// Whether the client has an open connection.
    pub fn is_connected(&self) -> (r: bool)
        ensures
            r == self.writer() is Some,
    {
        self.writer.is_some()
    }

    /// The opening request of a connection: the handshake for the client's
    /// URL with its headers set in order, or why it is refused (see
    /// `request_built`).
    pub fn connect_request(&self) -> (r: Result<Request<()>, NativeError>)
        ensures
            request_built(self.url(), self.headers(), r),
    {
        connect_request(self.url.as_str(), &self.config)
    }

    /// Attaches the writer of a newly opened connection, in place of any
    /// earlier one.
    pub fn attach(&mut self, writer: W)
        ensures
            final(self).writer() == Some(writer),
            final(self).url() == old(self).url(),
            final(self).headers() == old(self).headers(),
    {
        self.writer = Some(writer);
    }

    /// Detaches the writer of the connection, which has ended, and gives it
    /// back.
    pub fn detach(&mut self) -> (w: Option<W>)
        ensures
            w == old(self).writer(),
            final(self).writer() is None,
            final(self).url() == old(self).url(),
            final(self).headers() == old(self).headers(),
    {
        self.writer.take()
    }

    /// The writer to hand a message to, or the failure when no connection is
    /// open.
    fn route(&self, message: WsMessage) -> (r: Result<(&W, WsMessage), NativeError>)
        ensures
            r is Ok <==> self.writer() is Some,
            r matches Ok((w, m)) ==> Some(*w) == self.writer() && m@ == message@,
            r matches Err(e) ==> e@ == not_connected(),
    {
        match &self.writer {
            Some(w) => Ok((w, message)),
            None => Err(NativeError::generic_failure("WebSocket is not connected".to_owned())),
        }
    }

    /// Sends text or bytes: the message for them, with the writer to hand it
    /// to.
    pub fn send(&self, data: Payload) -> (r: Result<(&W, WsMessage), NativeError>)
        ensures
            routed_view(r) == client_send_outcome(self.writer() is Some, data@),
            r matches Ok((w, _)) ==> Some(*w) == self.writer(),
    {
        self.route(message_for_payload(data))
    }

    /// Sends a ping with the given bytes (none when absent), which must fit in
    /// a control frame.
    pub fn ping(&self, data: Option<Vec<u8>>) -> (r: Result<(&W, WsMessage), NativeError>)
        ensures
            routed_view(r) == client_ping_outcome(self.writer() is Some, ping_bytes(data)),
            r matches Ok((w, _)) ==> Some(*w) == self.writer(),
    {
        let message = ping_message(data);
        match message {
            Ok(m) => self.route(m),
            Err(e) => Err(e),
        }
    }

    /// Sends a close frame with the given code (normal closure when absent,
    /// else its low sixteen bits) and reason (empty when absent).
    pub fn close(&self, code: Option<u32>, reason: Option<String>) -> (r: Result<
        (&W, WsMessage),
        NativeError,
    >)
        ensures
            routed_view(r) == client_close_outcome(
                self.writer() is Some,
                close_code_for(code),
                close_reason_for(reason),
            ),
            r matches Ok((w, _)) ==> Some(*w) == self.writer(),
    {
        self.route(close_message(code, reason))
    }
}

} // verus!
