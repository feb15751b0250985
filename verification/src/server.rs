//! A WebSocket server: its registry of peers and how peers are numbered, the
//! calls that send to peers, how its listener reacts, and how each peer's
//! connection reacts to what happens on it.
use vstd::prelude::*;
use std::collections::HashMap;
use vstd::std_specs::iter::IteratorSpec;
use crate::message::{
    close_code_for, close_message, close_reason_for, message_for_payload, payload_message,
    peer_abnormal_close, peer_abnormal_close_event, peer_close_event, peer_close_event_for,
};
use crate::session::{present_if, Reaction, SessionEvent, SessionEventView};
use crate::types::{
    CloseFrameView, ErrorStatus, ErrorView, MessageView, NativeError, NativePeerCloseEvent,
    NativePeerMessage, Payload, PayloadView, PeerCloseEventView, PeerMessageView, WsMessage,
};

verus! {

broadcast use vstd::std_specs::hash::group_hash_axioms;

/// The id after `id`: one more, wrapping round after the largest.
pub open spec fn next_peer_id(id: u32) -> u32 {
    ((id as int + 1) % 0x1_0000_0000) as u32
}

/// The failure of a call that names a peer the server does not know.
pub open spec fn unknown_peer() -> ErrorView {
    ErrorView { status: ErrorStatus::InvalidArg, reason: "Unknown peer"@ }
}

/// What sending to a peer gives: the message for the payload when the peer is
/// registered, else a failure.
pub open spec fn server_send_outcome<S>(peers: Map<u32, S>, peer_id: u32, data: PayloadView) -> Result<
    MessageView,
    ErrorView,
> {
    if peers.contains_key(peer_id) {
        Ok(payload_message(data))
    } else {
        Err(unknown_peer())
    }
}

/// A server's state: the registered peers, each with the writer of its
/// connection, and the id the next accepted peer gets.
#[derive(Debug)]
pub struct NativeWebSocketServer<S> {
    peers: HashMap<u32, S>,
    next_id: u32,
}

impl<S> NativeWebSocketServer<S> {
    /// The registered peers and their writers.
    pub closed spec fn peers(&self) -> Map<u32, S> {
        self.peers@
    }

    /// The id the next accepted peer gets.
    pub closed spec fn next_id(&self) -> u32 {
        self.next_id
    }

    /// A server with no peers, whose first peer gets the id 1.
    pub fn new() -> (s: Self)
        ensures
            s.peers() == Map::<u32, S>::empty(),
            s.next_id() == 1,
    {
        NativeWebSocketServer { peers: HashMap::new(), next_id: 1 }
    }

    /// Takes the id for a newly accepted peer; the next one follows it,
    /// wrapping round after the largest.
    pub fn allocate_peer_id(&mut self) -> (id: u32)
        ensures
            id == old(self).next_id(),
            final(self).next_id() == next_peer_id(id),
            final(self).peers() == old(self).peers(),
    {
        let id = self.next_id;
        self.next_id = self.next_id.wrapping_add(1);
        id
    }

    /// Registers a peer with the writer of its connection, in place of any
    /// earlier one with the same id.
    pub fn register_peer(&mut self, peer_id: u32, writer: S)
        ensures
            final(self).peers() == old(self).peers().insert(peer_id, writer),
            final(self).next_id() == old(self).next_id(),
    {
        self.peers.insert(peer_id, writer);
    }

    /// Removes a peer, if registered.
    pub fn unregister_peer(&mut self, peer_id: u32)
        ensures
            final(self).peers() == old(self).peers().remove(peer_id),
            final(self).next_id() == old(self).next_id(),
    {
        self.peers.remove(&peer_id);
    }

    /// Removes every peer.
    pub fn clear_peers(&mut self)
        ensures
            final(self).peers() == Map::<u32, S>::empty(),
            final(self).next_id() == old(self).next_id(),
    {
        self.peers.clear();
    }

    /// Whether a peer is registered.
    pub fn has_peer(&self, peer_id: u32) -> (r: bool)
        ensures
            r == self.peers().contains_key(peer_id),
    {
        self.peers.contains_key(&peer_id)
    }

    /// The number of registered peers.
    pub fn peer_count(&self) -> (n: usize)
        ensures
            n == self.peers().len(),
    {
        self.peers.len()
    }

    /// The ids of the registered peers, each once, in no stated order.
    pub fn peer_ids(&self) -> (ids: Vec<u32>)
        ensures
            ids@.no_duplicates(),
            ids@.to_set() == self.peers().dom(),
            ids@.len() == self.peers().len(),
    {
        let mut ids: Vec<u32> = Vec::new();
        let ghost keys = vstd::std_specs::hash::spec_keys_iter(&self.peers).remaining();
        for id in it: self.peers.keys()
            invariant
                keys == vstd::std_specs::hash::spec_keys_iter(&self.peers).remaining(),
                it.seq() == keys,
                ids@ == keys.unref().take(it.index()),
        {
            ids.push(*id);
            proof {
                assert(keys.unref().take(it.index() + 1) =~= keys.unref().take(it.index()).push(*id));
            }
        }
        proof {
            assert(keys.unref().take(keys.len() as int) =~= keys.unref());
        }
        ids
    }

    /// Sends text or bytes to one peer: the message for them, with the writer
    /// of the peer's connection.
    pub fn send(&self, peer_id: u32, data: Payload) -> (r: Result<(&S, WsMessage), NativeError>)
        ensures
            match r {
                Ok((w, m)) => Ok::<MessageView, ErrorView>(m@) == server_send_outcome(self.peers(), peer_id, data@)
                    && *w == self.peers()[peer_id],
                Err(e) => Err::<MessageView, ErrorView>(e@) == server_send_outcome(self.peers(), peer_id, data@),
            },
    {
        match self.peers.get(&peer_id) {
            Some(w) => Ok((w, message_for_payload(data))),
            None => Err(NativeError::invalid_arg("Unknown peer".to_owned())),
        }
    }

    /// Sends a close frame to one peer, when registered, with the given code
    /// (normal closure when absent, else its low sixteen bits) and reason
    /// (empty when absent). An unknown peer is passed over.
    pub fn close_peer(&self, peer_id: u32, code: Option<u32>, reason: Option<String>) -> (r: Option<
        (&S, WsMessage),
    >)
        ensures
            r is Some <==> self.peers().contains_key(peer_id),
            r matches Some((w, m)) ==> *w == self.peers()[peer_id] && m@ == MessageView::Close(
                Some(CloseFrameView { code: close_code_for(code), reason: close_reason_for(reason) }),
            ),
    {
        match self.peers.get(&peer_id) {
            Some(w) => Some((w, close_message(code, reason))),
            None => None,
        }
    }

    /// Sends text or bytes to every registered peer: for each, once, its id,
    /// the writer of its connection and the message, in no stated order.
    pub fn broadcast(&self, data: &Payload) -> (r: Vec<(u32, &S, WsMessage)>)
        ensures
            r@.map_values(|t: (u32, &S, WsMessage)| t.0).no_duplicates(),
            r@.map_values(|t: (u32, &S, WsMessage)| t.0).to_set() == self.peers().dom(),
            r@.len() == self.peers().len(),
            forall|i: int|
                0 <= i < r@.len() ==> *(#[trigger] r@[i]).1 == self.peers()[r@[i].0] && r@[i].2@
                    == payload_message(data@),
    {
        let ids = self.peer_ids();
        let mut out: Vec<(u32, &S, WsMessage)> = Vec::new();
        let mut i: usize = 0;
        while i < ids.len()
            invariant
                i <= ids.len(),
                ids@.no_duplicates(),
                ids@.to_set() == self.peers().dom(),
                out@.len() == i,
                forall|j: int| 0 <= j < i ==> (#[trigger] out@[j]).0 == ids@[j],
                forall|j: int|
                    0 <= j < i ==> *(#[trigger] out@[j]).1 == self.peers()[out@[j].0] && out@[j].2@
                        == payload_message(data@),
            decreases ids.len() - i,
        {
            let id = ids[i];
            assert(ids@.to_set().contains(id));
            match self.peers.get(&id) {
                Some(w) => {
                    out.push((id, w, message_for_payload(data.duplicate())));
                },
                None => {
                    assert(false);
                },
            }
            i = i + 1;
        }
        proof {
            assert(out@.map_values(|t: (u32, &S, WsMessage)| t.0) =~= ids@);
        }
        out
    }
}

/// Which listeners a server had registered when it started listening.
#[derive(Clone, Copy, Debug)]
pub struct ServerListeners {
    pub peer_open: bool,
    pub peer_message: bool,
    pub peer_close: bool,
    pub error: bool,
}

/// Something a peer's connection does.
#[derive(Debug)]
pub enum PeerEffect {
    /// Register the peer with the writer of its connection.
    Register(u32),
    /// Tell the open listener that the peer joined.
    NotifyOpen(u32),
    /// Write this message to the peer's socket.
    Write(WsMessage),
    /// Tell the message listener what the peer sent.
    NotifyMessage(NativePeerMessage),
    /// Queue a pong carrying these bytes.
    QueuePong(Vec<u8>),
    /// Remove the peer from the registry.
    Unregister(u32),
    /// Tell the close listener how the peer's connection closed.
    NotifyClose(NativePeerCloseEvent),
    /// Tell the error listener what went wrong.
    NotifyError(String),
}

/// The view of a [`PeerEffect`].
pub enum PeerEffectView {
    Register(u32),
    NotifyOpen(u32),
    Write(MessageView),
    NotifyMessage(PeerMessageView),
    QueuePong(Seq<u8>),
    Unregister(u32),
    NotifyClose(PeerCloseEventView),
    NotifyError(Seq<char>),
}

impl View for PeerEffect {
    type V = PeerEffectView;

    open spec fn view(&self) -> PeerEffectView {
        match self {
            PeerEffect::Register(id) => PeerEffectView::Register(*id),
            PeerEffect::NotifyOpen(id) => PeerEffectView::NotifyOpen(*id),
            PeerEffect::Write(m) => PeerEffectView::Write(m@),
            PeerEffect::NotifyMessage(m) => PeerEffectView::NotifyMessage(m@),
            PeerEffect::QueuePong(b) => PeerEffectView::QueuePong(b@),
            PeerEffect::Unregister(id) => PeerEffectView::Unregister(*id),
            PeerEffect::NotifyClose(e) => PeerEffectView::NotifyClose(e@),
            PeerEffect::NotifyError(e) => PeerEffectView::NotifyError(e@),
        }
    }
}

/// The views of a sequence of peer effects.
pub open spec fn peer_effects_view(s: Seq<PeerEffect>) -> Seq<PeerEffectView> {
    s.map_values(|e: PeerEffect| e@)
}

/// The effects of a peer whose handshake succeeded: it is registered, then
/// announced.
pub open spec fn peer_opening(l: ServerListeners, peer_id: u32) -> Seq<PeerEffectView> {
    seq![PeerEffectView::Register(peer_id)] + present_if(
        l.peer_open,
        PeerEffectView::NotifyOpen(peer_id),
    )
}

/// The effects of a peer whose handshake failed: the error is reported.
pub open spec fn peer_handshake_failure(l: ServerListeners, error: Seq<char>) -> Seq<PeerEffectView> {
    present_if(l.error, PeerEffectView::NotifyError(error))
}

/// The effects of a peer's connection that ended in an orderly way: the peer
/// is removed, then its close is reported.
pub open spec fn peer_closing(l: ServerListeners, peer_id: u32, event: PeerCloseEventView) -> Seq<
    PeerEffectView,
> {
    seq![PeerEffectView::Unregister(peer_id)] + present_if(
        l.peer_close,
        PeerEffectView::NotifyClose(event),
    )
}

/// The effects of a peer's connection that ended in a failure: the peer is
/// removed, then the error is reported; no close is reported.
pub open spec fn peer_failing(l: ServerListeners, peer_id: u32, error: Seq<char>) -> Seq<
    PeerEffectView,
> {
    seq![PeerEffectView::Unregister(peer_id)] + present_if(
        l.error,
        PeerEffectView::NotifyError(error),
    )
}

/// How a peer's connection reacts to one event: its effects, and whether the
/// connection is over. A ping is always answered with a pong carrying its
/// bytes; a close frame, the end of either direction or a refused pong ends
/// the connection with a close report; a failure ends it with an error report.
pub open spec fn peer_reaction(l: ServerListeners, peer_id: u32, e: SessionEventView) -> (
    Seq<PeerEffectView>,
    bool,
) {
    match e {
        SessionEventView::Queued(m) => (seq![PeerEffectView::Write(m)], false),
        SessionEventView::QueueClosed => (
            peer_closing(l, peer_id, peer_abnormal_close_event(peer_id)),
            true,
        ),
        SessionEventView::WriteFailed(s) => (peer_failing(l, peer_id, s), true),
        SessionEventView::Received(m) => match m {
            MessageView::Text(s) => (
                present_if(
                    l.peer_message,
                    PeerEffectView::NotifyMessage(
                        PeerMessageView { peer_id, data: PayloadView::Text(s) },
                    ),
                ),
                false,
            ),
            MessageView::Binary(b) => (
                present_if(
                    l.peer_message,
                    PeerEffectView::NotifyMessage(
                        PeerMessageView { peer_id, data: PayloadView::Binary(b) },
                    ),
                ),
                false,
            ),
            MessageView::Ping(b) => (seq![PeerEffectView::QueuePong(b)], false),
            MessageView::Pong(_) => (Seq::empty(), false),
            MessageView::Close(f) => (peer_closing(l, peer_id, peer_close_event_for(peer_id, f)), true),
        },
        SessionEventView::ReceivedRaw => (Seq::empty(), false),
        SessionEventView::ReadFailed(s) => (peer_failing(l, peer_id, s), true),
        SessionEventView::ReadEnded => (
            peer_closing(l, peer_id, peer_abnormal_close_event(peer_id)),
            true,
        ),
        SessionEventView::PongRejected => (
            peer_closing(l, peer_id, peer_abnormal_close_event(peer_id)),
            true,
        ),
    }
}

/// Appends an effect to a list, keeping its view in step.
fn push_peer_effect(effects: &mut Vec<PeerEffect>, e: PeerEffect)
    ensures
        peer_effects_view(final(effects)@) == peer_effects_view(old(effects)@).push(e@),
{
    effects.push(e);
    assert(peer_effects_view(effects@) =~= peer_effects_view(old(effects)@).push(e@));
}

/// The effects of a peer whose handshake failed.
pub fn handshake_failed(listeners: ServerListeners, error: String) -> (r: Vec<PeerEffect>)
    ensures
        peer_effects_view(r@) == peer_handshake_failure(listeners, error@),
{
    let mut effects: Vec<PeerEffect> = Vec::new();
    if listeners.error {
        push_peer_effect(&mut effects, PeerEffect::NotifyError(error));
    }
    assert(peer_effects_view(effects@) =~= peer_handshake_failure(listeners, error@));
    effects
}

/// The running connection of one peer of a server.
#[derive(Debug)]
pub struct PeerSession {
    peer_id: u32,
    listeners: ServerListeners,
    finished: bool,
}

impl PeerSession {
    /// The id of the peer.
    pub closed spec fn peer_id(&self) -> u32 {
        self.peer_id
    }

    /// The listeners the connection reports to.
    pub closed spec fn listeners(&self) -> ServerListeners {
        self.listeners
    }

    /// Whether the connection is over.
    pub closed spec fn finished(&self) -> bool {
        self.finished
    }

    /// The connection of a peer whose handshake succeeded.
    pub fn new(peer_id: u32, listeners: ServerListeners) -> (s: PeerSession)
        ensures
            s.peer_id() == peer_id,
            s.listeners() == listeners,
            !s.finished(),
    {
        PeerSession { peer_id, listeners, finished: false }
    }

    /// Whether the connection is over.
    pub fn is_finished(&self) -> (r: bool)
        ensures
            r == self.finished(),
    {
        self.finished
    }

    /// The effects of the connection's opening.
    pub fn opening(&self) -> (r: Vec<PeerEffect>)
        ensures
            peer_effects_view(r@) == peer_opening(self.listeners(), self.peer_id()),
    {
        let mut effects: Vec<PeerEffect> = Vec::new();
        push_peer_effect(&mut effects, PeerEffect::Register(self.peer_id));
        if self.listeners.peer_open {
            push_peer_effect(&mut effects, PeerEffect::NotifyOpen(self.peer_id));
        }
        assert(peer_effects_view(effects@) =~= peer_opening(self.listeners(), self.peer_id()));
        effects
    }

    /// The effects of an orderly end, reported with this close event.
    fn closing(&self, event: NativePeerCloseEvent) -> (r: Vec<PeerEffect>)
        ensures
            peer_effects_view(r@) == peer_closing(self.listeners(), self.peer_id(), event@),
    {
        let mut effects: Vec<PeerEffect> = Vec::new();
        push_peer_effect(&mut effects, PeerEffect::Unregister(self.peer_id));
        if self.listeners.peer_close {
            push_peer_effect(&mut effects, PeerEffect::NotifyClose(event));
        }
        assert(peer_effects_view(effects@) =~= peer_closing(
            self.listeners(),
            self.peer_id(),
            event@,
        ));
        effects
    }

    /// The effects of an end by failure.
    fn failing(&self, error: String) -> (r: Vec<PeerEffect>)
        ensures
            peer_effects_view(r@) == peer_failing(self.listeners(), self.peer_id(), error@),
    {
        let mut effects: Vec<PeerEffect> = Vec::new();
        push_peer_effect(&mut effects, PeerEffect::Unregister(self.peer_id));
        if self.listeners.error {
            push_peer_effect(&mut effects, PeerEffect::NotifyError(error));
        }
        assert(peer_effects_view(effects@) =~= peer_failing(
            self.listeners(),
            self.peer_id(),
            error@,
        ));
        effects
    }

    /// How the connection reacts to one event.
    pub fn handle(&mut self, event: SessionEvent) -> (r: Reaction<PeerEffect>)
        requires
            !old(self).finished(),
        ensures
            (peer_effects_view(r.effects@), r.finished) == peer_reaction(
                old(self).listeners(),
                old(self).peer_id(),
                event@,
            ),
            final(self).finished() == r.finished,
            final(self).listeners() == old(self).listeners(),
            final(self).peer_id() == old(self).peer_id(),
    {
        let l = self.listeners;
        let id = self.peer_id;
        let ghost ev = event@;
        let (effects, finished) = match event {
            SessionEvent::Queued(m) => {
                let mut effects: Vec<PeerEffect> = Vec::new();
                push_peer_effect(&mut effects, PeerEffect::Write(m));
                (effects, false)
            },
            SessionEvent::QueueClosed => (self.closing(peer_abnormal_close(id)), true),
            SessionEvent::WriteFailed(e) => (self.failing(e), true),
            SessionEvent::Received(m) => match m {
                WsMessage::Text(s) => {
                    let mut effects: Vec<PeerEffect> = Vec::new();
                    if l.peer_message {
                        push_peer_effect(
                            &mut effects,
                            PeerEffect::NotifyMessage(
                                NativePeerMessage { peer_id: id, data: Payload::Text(s) },
                            ),
                        );
                    }
                    (effects, false)
                },
                WsMessage::Binary(b) => {
                    let mut effects: Vec<PeerEffect> = Vec::new();
                    if l.peer_message {
                        push_peer_effect(
                            &mut effects,
                            PeerEffect::NotifyMessage(
                                NativePeerMessage { peer_id: id, data: Payload::Binary(b) },
                            ),
                        );
                    }
                    (effects, false)
                },
                WsMessage::Ping(b) => {
                    let mut effects: Vec<PeerEffect> = Vec::new();
                    push_peer_effect(&mut effects, PeerEffect::QueuePong(b));
                    (effects, false)
                },
                WsMessage::Pong(_) => (Vec::new(), false),
                WsMessage::Close(f) => (self.closing(peer_close_event(id, f)), true),
            },
            SessionEvent::ReceivedRaw => (Vec::new(), false),
            SessionEvent::ReadFailed(e) => (self.failing(e), true),
            SessionEvent::ReadEnded => (self.closing(peer_abnormal_close(id)), true),
            SessionEvent::PongRejected => (self.closing(peer_abnormal_close(id)), true),
        };
        proof {
            let expected = peer_reaction(l, id, ev);
            assert(peer_effects_view(effects@) =~= expected.0);
        }
        self.finished = finished;
        Reaction { effects, finished }
    }
}

/// Something that happened on a server's listening socket.
#[derive(Debug)]
pub enum ListenEvent {
    /// The server was told to stop, or started anew.
    Shutdown,
    /// A connection was accepted.
    Accepted,
    /// Accepting a connection failed, with this error.
    AcceptFailed(String),
}

/// The view of a [`ListenEvent`].
pub enum ListenEventView {
    Shutdown,
    Accepted,
    AcceptFailed(Seq<char>),
}

impl View for ListenEvent {
    type V = ListenEventView;

    open spec fn view(&self) -> ListenEventView {
        match self {
            ListenEvent::Shutdown => ListenEventView::Shutdown,
            ListenEvent::Accepted => ListenEventView::Accepted,
            ListenEvent::AcceptFailed(e) => ListenEventView::AcceptFailed(e@),
        }
    }
}

/// Something a server's listener does.
#[derive(Debug)]
pub enum ListenEffect {
    /// Run the connection of a newly accepted peer under this id.
    StartPeer(u32),
    /// Tell the error listener what went wrong.
    NotifyError(String),
}

/// The view of a [`ListenEffect`].
pub enum ListenEffectView {
    StartPeer(u32),
    NotifyError(Seq<char>),
}

impl View for ListenEffect {
    type V = ListenEffectView;

    open spec fn view(&self) -> ListenEffectView {
        match self {
            ListenEffect::StartPeer(id) => ListenEffectView::StartPeer(*id),
            ListenEffect::NotifyError(e) => ListenEffectView::NotifyError(e@),
        }
    }
}

/// The views of a sequence of listener effects.
pub open spec fn listen_effects_view(s: Seq<ListenEffect>) -> Seq<ListenEffectView> {
    s.map_values(|e: ListenEffect| e@)
}

/// What a server's listener does on one event, when the next peer gets the
/// id `next`: an accepted connection is started under that id; a failure is
/// reported; a shutdown does nothing more than end it.
pub open spec fn listen_effects(l: ServerListeners, next: u32, e: ListenEventView) -> Seq<
    ListenEffectView,
> {
    match e {
        ListenEventView::Shutdown => Seq::empty(),
        ListenEventView::Accepted => seq![ListenEffectView::StartPeer(next)],
        ListenEventView::AcceptFailed(s) => present_if(l.error, ListenEffectView::NotifyError(s)),
    }
}

/// The id the next peer gets after one event of the listener: an accepted
/// connection uses up an id, whether or not its handshake succeeds later.
pub open spec fn listen_next_id(next: u32, e: ListenEventView) -> u32 {
    match e {
        ListenEventView::Accepted => next_peer_id(next),
        _ => next,
    }
}

impl<S> NativeWebSocketServer<S> {
    /// How the server's listener reacts to one event: an accepted connection
    /// gets the next peer id; a failure is reported; a shutdown removes every
    /// peer and ends the listener.
    pub fn on_listen_event(&mut self, listeners: ServerListeners, event: ListenEvent) -> (r:
        Reaction<ListenEffect>)
        ensures
            listen_effects_view(r.effects@) == listen_effects(listeners, old(self).next_id(), event@),
            r.finished == (event@ is Shutdown),
            final(self).next_id() == listen_next_id(old(self).next_id(), event@),
            final(self).peers() == (if event@ is Shutdown {
                Map::<u32, S>::empty()
            } else {
                old(self).peers()
            }),
    {
        let mut effects: Vec<ListenEffect> = Vec::new();
        let ghost ev = event@;
        let finished = match event {
            ListenEvent::Shutdown => {
                self.clear_peers();
                true
            },
            ListenEvent::Accepted => {
                let id = self.allocate_peer_id();
                effects.push(ListenEffect::StartPeer(id));
                false
            },
            ListenEvent::AcceptFailed(e) => {
                if listeners.error {
                    effects.push(ListenEffect::NotifyError(e));
                }
                false
            },
        };
        proof {
            match ev {
                ListenEventView::Shutdown => {
                    assert(listen_effects_view(effects@) =~= Seq::<ListenEffectView>::empty());
                },
                ListenEventView::Accepted => {
                    assert(listen_effects_view(effects@) =~= seq![
                        ListenEffectView::StartPeer(old(self).next_id()),
                    ]);
                },
                ListenEventView::AcceptFailed(e) => {
                    assert(listen_effects_view(effects@) =~= present_if(
                        listeners.error,
                        ListenEffectView::NotifyError(e),
                    ));
                },
            }
        }
        Reaction { effects, finished }
    }
}

} // verus!
