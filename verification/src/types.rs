//! Plain values that cross the boundary of the bridge, and their views.
use vstd::prelude::*;

verus! {

/// Which of the two kinds of failure a refused call reports.
#[derive(Clone, Copy, Debug, PartialEq, Eq, Structural)]
pub enum ErrorStatus {
    /// The caller passed an argument that cannot be used.
    InvalidArg,
    /// The call could not be carried out.
    GenericFailure,
}

/// The error that a refused call returns to its caller.
#[derive(Debug)]
pub struct NativeError {
    pub status: ErrorStatus,
    pub reason: String,
}

/// The view of a [`NativeError`].
pub struct ErrorView {
    pub status: ErrorStatus,
    pub reason: Seq<char>,
}

impl View for NativeError {
    type V = ErrorView;

    open spec fn view(&self) -> ErrorView {
        ErrorView { status: self.status, reason: self.reason@ }
    }
}

impl NativeError {
    /// An error for an argument that cannot be used.
    pub fn invalid_arg(reason: String) -> (e: NativeError)
        ensures
            e@ == (ErrorView { status: ErrorStatus::InvalidArg, reason: reason@ }),
    {
        NativeError { status: ErrorStatus::InvalidArg, reason }
    }

    /// An error for a call that could not be carried out.
    pub fn generic_failure(reason: String) -> (e: NativeError)
        ensures
            e@ == (ErrorView { status: ErrorStatus::GenericFailure, reason: reason@ }),
    {
        NativeError { status: ErrorStatus::GenericFailure, reason }
    }
}

/// What a caller hands over to be sent: text or bytes.
#[derive(Debug)]
pub enum Payload {
    Text(String),
    Binary(Vec<u8>),
}

/// The view of a [`Payload`].
pub enum PayloadView {
    Text(Seq<char>),
    Binary(Seq<u8>),
}

impl View for Payload {
    type V = PayloadView;

    open spec fn view(&self) -> PayloadView {
        match self {
            Payload::Text(s) => PayloadView::Text(s@),
            Payload::Binary(b) => PayloadView::Binary(b@),
        }
    }
}

impl Payload {
    /// A second payload with the same contents.
    pub fn duplicate(&self) -> (r: Payload)
        ensures
            r@ == self@,
    {
        match self {
            Payload::Text(s) => Payload::Text(s.clone()),
            Payload::Binary(b) => Payload::Binary(copy_bytes(b)),
        }
    }
}

/// A copy of a byte vector.
pub fn copy_bytes(b: &Vec<u8>) -> (r: Vec<u8>)
    ensures
        r@ == b@,
{
    let mut r: Vec<u8> = Vec::new();
    let mut i: usize = 0;
    while i < b.len()
        invariant
            i <= b.len(),
            r@ == b@.subrange(0, i as int),
        decreases b.len() - i,
    {
        r.push(b[i]);
        i = i + 1;
    }
    assert(b@.subrange(0, b.len() as int) == b@);
    r
}

/// The status code and reason of a close frame.
#[derive(Debug)]
pub struct CloseFrame {
    pub code: u16,
    pub reason: String,
}

/// The view of a [`CloseFrame`].
pub struct CloseFrameView {
    pub code: u16,
    pub reason: Seq<char>,
}

impl View for CloseFrame {
    type V = CloseFrameView;

    open spec fn view(&self) -> CloseFrameView {
        CloseFrameView { code: self.code, reason: self.reason@ }
    }
}

/// The view of an optional close frame.
pub open spec fn frame_view(f: Option<CloseFrame>) -> Option<CloseFrameView> {
    match f {
        Some(frame) => Some(frame@),
        None => None,
    }
}

/// A WebSocket message, as written to or read from a connection.
#[derive(Debug)]
pub enum WsMessage {
    Text(String),
    Binary(Vec<u8>),
    Ping(Vec<u8>),
    Pong(Vec<u8>),
    Close(Option<CloseFrame>),
}

/// The view of a [`WsMessage`].
pub enum MessageView {
    Text(Seq<char>),
    Binary(Seq<u8>),
    Ping(Seq<u8>),
    Pong(Seq<u8>),
    Close(Option<CloseFrameView>),
}

impl View for WsMessage {
    type V = MessageView;

    open spec fn view(&self) -> MessageView {
        match self {
            WsMessage::Text(s) => MessageView::Text(s@),
            WsMessage::Binary(b) => MessageView::Binary(b@),
            WsMessage::Ping(b) => MessageView::Ping(b@),
            WsMessage::Pong(b) => MessageView::Pong(b@),
            WsMessage::Close(f) => MessageView::Close(frame_view(*f)),
        }
    }
}

/// What a client's close listener is told when its connection ends.
#[derive(Debug)]
pub struct NativeCloseEvent {
    pub code: u32,
    pub reason: String,
    pub clean: bool,
}

/// The view of a [`NativeCloseEvent`].
pub struct CloseEventView {
    pub code: u32,
    pub reason: Seq<char>,
    pub clean: bool,
}

impl View for NativeCloseEvent {
    type V = CloseEventView;

    open spec fn view(&self) -> CloseEventView {
        CloseEventView { code: self.code, reason: self.reason@, clean: self.clean }
    }
}

/// A message that a server received from one of its peers.
#[derive(Debug)]
pub struct NativePeerMessage {
    pub peer_id: u32,
    pub data: Payload,
}

/// The view of a [`NativePeerMessage`].
pub struct PeerMessageView {
    pub peer_id: u32,
    pub data: PayloadView,
}

impl View for NativePeerMessage {
    type V = PeerMessageView;

    open spec fn view(&self) -> PeerMessageView {
        PeerMessageView { peer_id: self.peer_id, data: self.data@ }
    }
}

/// What a server's close listener is told when a peer's connection ends.
#[derive(Debug)]
pub struct NativePeerCloseEvent {
    pub peer_id: u32,
    pub code: u32,
    pub reason: String,
    pub clean: bool,
}

/// The view of a [`NativePeerCloseEvent`].
pub struct PeerCloseEventView {
    pub peer_id: u32,
    pub code: u32,
    pub reason: Seq<char>,
    pub clean: bool,
}

impl View for NativePeerCloseEvent {
    type V = PeerCloseEventView;

    open spec fn view(&self) -> PeerCloseEventView {
        PeerCloseEventView {
            peer_id: self.peer_id,
            code: self.code,
            reason: self.reason@,
            clean: self.clean,
        }
    }
}

/// Options of a client: extra headers for the opening handshake, their
/// names all different.
#[derive(Debug)]
pub struct NativeClientConfig {
    headers: Option<Vec<(String, String)>>,
}

/// The view of a list of headers.
pub open spec fn headers_view(h: Seq<(String, String)>) -> Seq<(Seq<char>, Seq<char>)> {
    h.map_values(|p: (String, String)| (p.0@, p.1@))
}

/// The view of an optional list of headers: none when absent.
pub open spec fn optional_headers_view(h: Option<Vec<(String, String)>>) -> Seq<(Seq<char>, Seq<char>)> {
    match h {
        Some(v) => headers_view(v@),
        None => Seq::empty(),
    }
}

/// Whether no two headers of a list have the same name.
pub open spec fn names_distinct(h: Seq<(Seq<char>, Seq<char>)>) -> bool {
    forall|i: int, j: int| 0 <= i < j < h.len() ==> (#[trigger] h[i]).0 != (#[trigger] h[j]).0
}

impl NativeClientConfig {
    #[verifier::type_invariant]
    spec fn distinct_header_names(self) -> bool {
        names_distinct(optional_headers_view(self.headers))
    }

    /// The headers the options hold, as given to [`NativeClientConfig::new`].
    pub closed spec fn header_option(self) -> Option<Vec<(String, String)>> {
        self.headers
    }

    /// The headers of the options, in order.
    pub closed spec fn header_list(self) -> Seq<(Seq<char>, Seq<char>)> {
        optional_headers_view(self.headers)
    }

    /// Options with these headers, when no two of them have the same name.
    pub fn new(headers: Option<Vec<(String, String)>>) -> (r: Option<NativeClientConfig>)
        ensures
            r is Some <==> names_distinct(optional_headers_view(headers)),
            r matches Some(c) ==> c.header_option() == headers && c.header_list()
                == optional_headers_view(headers),
    {
        let distinct = match &headers {
            Some(h) => all_names_distinct(h),
            None => true,
        };
        if distinct {
            Some(NativeClientConfig { headers })
        } else {
            None
        }
    }

    /// The headers of the options.
    pub fn headers(&self) -> (r: &Option<Vec<(String, String)>>)
        ensures
            *r == self.header_option(),
            optional_headers_view(*r) == self.header_list(),
            names_distinct(self.header_list()),
    {
        proof {
            use_type_invariant(self);
        }
        &self.headers
    }

    /// The headers of the options, given back.
    pub fn into_headers(self) -> (r: Option<Vec<(String, String)>>)
        ensures
            r == self.header_option(),
            optional_headers_view(r) == self.header_list(),
    {
        self.headers
    }
}

/// Whether no two headers of a list have the same name.
fn all_names_distinct(h: &Vec<(String, String)>) -> (r: bool)
    ensures
        r == names_distinct(headers_view(h@)),
{
    let ghost hv = headers_view(h@);
    let mut i: usize = 0;
    while i < h.len()
        invariant
            i <= h.len(),
            hv == headers_view(h@),
            forall|a: int, b: int| 0 <= a < b < hv.len() && a < i ==> (#[trigger] hv[a]).0 != (#[trigger] hv[b]).0,
        decreases h.len() - i,
    {
        let mut j: usize = i + 1;
        while j < h.len()
            invariant
                i < h.len(),
                i + 1 <= j <= h.len(),
                hv == headers_view(h@),
                forall|a: int, b: int| 0 <= a < b < hv.len() && a < i ==> (#[trigger] hv[a]).0 != (#[trigger] hv[b]).0,
                forall|b: int| i < b < j ==> hv[i as int].0 != (#[trigger] hv[b]).0,
            decreases h.len() - j,
        {
            if h[i].0 == h[j].0 {
                assert(hv[i as int].0 == hv[j as int].0);
                return false;
            }
            j = j + 1;
        }
        i = i + 1;
    }
    true
}

/// The view of a client's options: the headers it adds, in order.
pub open spec fn config_headers(c: Option<NativeClientConfig>) -> Seq<(Seq<char>, Seq<char>)> {
    match c {
        Some(cfg) => cfg.header_list(),
        None => Seq::empty(),
    }
}

} // verus!
