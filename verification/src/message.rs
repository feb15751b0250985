//! How the bridge's calls become WebSocket messages, and how close frames are
//! reported.
use vstd::prelude::*;
use crate::types::{
    frame_view, CloseEventView, CloseFrame, CloseFrameView, ErrorStatus, MessageView, NativeCloseEvent,
    NativeError, NativePeerCloseEvent, Payload, PayloadView, PeerCloseEventView, WsMessage,
};

verus! {

/// The largest payload that a control frame (ping, pong, close) may carry.
pub const MAX_CONTROL_PAYLOAD: usize = 125;

/// The close code sent when the caller names none: normal closure.
pub const NORMAL_CLOSURE: u16 = 1000;

/// The close code reported when a connection ends without a close frame.
pub const ABNORMAL_CLOSURE: u32 = 1006;

/// The close code reported for a close frame that carries no status code.
pub const NO_STATUS_RECEIVED: u32 = 1005;

/// The message that carries a payload: text as a text message, bytes as a
/// binary message.
pub open spec fn payload_message(p: PayloadView) -> MessageView {
    match p {
        PayloadView::Text(s) => MessageView::Text(s),
        PayloadView::Binary(b) => MessageView::Binary(b),
    }
}

/// The bytes of a ping: those given, or none.
pub open spec fn ping_bytes(data: Option<Vec<u8>>) -> Seq<u8> {
    match data {
        Some(v) => v@,
        None => Seq::empty(),
    }
}

/// The close code sent for the code a caller gives: normal closure when none
/// is given, else its low sixteen bits.
pub open spec fn close_code_for(code: Option<u32>) -> u16 {
    match code {
        Some(c) => (c % 0x10000) as u16,
        None => NORMAL_CLOSURE,
    }
}

/// The reason sent for the reason a caller gives: empty when none is given.
pub open spec fn close_reason_for(reason: Option<String>) -> Seq<char> {
    match reason {
        Some(r) => r@,
        None => Seq::empty(),
    }
}

/// The close event reported for a close frame received on a client's
/// connection: the closing handshake took place, so the close is clean; its
/// code and reason are the frame's, and a frame without a status code gives
/// "no status received" and an empty reason.
pub open spec fn close_event_for(frame: Option<CloseFrameView>) -> CloseEventView {
    match frame {
        Some(f) => CloseEventView { code: f.code as u32, reason: f.reason, clean: true },
        None => CloseEventView { code: NO_STATUS_RECEIVED, reason: Seq::empty(), clean: true },
    }
}

/// The close event reported when a client's connection ends without a close
/// frame: an abnormal closure that was not clean.
pub open spec fn abnormal_close_event() -> CloseEventView {
    CloseEventView { code: ABNORMAL_CLOSURE, reason: Seq::empty(), clean: false }
}

/// The close event reported for a close frame received from a server's
/// peer, as for a client.
pub open spec fn peer_close_event_for(peer_id: u32, frame: Option<CloseFrameView>) -> PeerCloseEventView {
    match frame {
        Some(f) => PeerCloseEventView { peer_id, code: f.code as u32, reason: f.reason, clean: true },
        None => PeerCloseEventView {
            peer_id,
            code: NO_STATUS_RECEIVED,
            reason: Seq::empty(),
            clean: true,
        },
    }
}

/// The close event reported when a peer's connection ends without a close
/// frame: an abnormal closure that was not clean.
pub open spec fn peer_abnormal_close_event(peer_id: u32) -> PeerCloseEventView {
    PeerCloseEventView { peer_id, code: ABNORMAL_CLOSURE, reason: Seq::empty(), clean: false }
}

/// Turns a payload into the message that carries it.
pub fn message_for_payload(data: Payload) -> (m: WsMessage)
    ensures
        m@ == payload_message(data@),
{
    match data {
        Payload::Text(s) => WsMessage::Text(s),
        Payload::Binary(b) => WsMessage::Binary(b),
    }
}

/// The ping message for the given bytes (none when absent). Refused with an
/// invalid-argument error when the bytes do not fit in a control frame.
pub fn ping_message(data: Option<Vec<u8>>) -> (r: Result<WsMessage, NativeError>)
    ensures
        r is Ok <==> ping_bytes(data).len() <= MAX_CONTROL_PAYLOAD,
        r matches Ok(m) ==> m@ == MessageView::Ping(ping_bytes(data)),
        r matches Err(e) ==> e.status == ErrorStatus::InvalidArg
            && e.reason@ == "Ping payload exceeds 125 bytes"@,
        data matches Some(v) ==> (r is Ok <==> v@.len() <= 125),
        data matches Some(v) ==> (r matches Ok(m) ==> m@ == MessageView::Ping(v@)),
        data is None ==> (r matches Ok(m) && m@ == MessageView::Ping(Seq::empty())),
{
    let value = match data {
        Some(v) => v,
        None => Vec::new(),
    };
    if value.len() > MAX_CONTROL_PAYLOAD {
        return Err(NativeError::invalid_arg("Ping payload exceeds 125 bytes".to_owned()));
    }
    Ok(WsMessage::Ping(value))
}

/// The low sixteen bits of a close code.
pub fn truncate_close_code(code: u32) -> (r: u16)
    ensures
        r == code % 0x10000,
{
    assert((code as u16) == code % 0x10000) by (bit_vector);
    code as u16
}

/// The close message for the code and reason a caller gives: normal closure
/// and an empty reason when they are absent.
pub fn close_message(code: Option<u32>, reason: Option<String>) -> (m: WsMessage)
    ensures
        m@ == MessageView::Close(
            Some(CloseFrameView { code: close_code_for(code), reason: close_reason_for(reason) }),
        ),
{
    let code = match code {
        Some(c) => truncate_close_code(c),
        None => NORMAL_CLOSURE,
    };
    let reason = match reason {
        Some(r) => r,
        None => String::new(),
    };
    WsMessage::Close(Some(CloseFrame { code, reason }))
}

/// The close event a client reports for a close frame it received.
pub fn close_event(frame: Option<CloseFrame>) -> (e: NativeCloseEvent)
    ensures
        e@ == close_event_for(frame_view(frame)),
        frame matches Some(f) ==> e.code == f.code as u32 && e.reason@ == f.reason@ && e.clean,
        frame is None ==> e.code == 1005 && e.reason@ == Seq::<char>::empty() && e.clean,
{
    match frame {
        Some(f) => NativeCloseEvent { code: f.code as u32, reason: f.reason, clean: true },
        None => NativeCloseEvent { code: NO_STATUS_RECEIVED, reason: String::new(), clean: true },
    }
}

/// The close event a client reports when its connection ends without a close
/// frame.
pub fn abnormal_close() -> (e: NativeCloseEvent)
    ensures
        e@ == abnormal_close_event(),
{
    NativeCloseEvent { code: ABNORMAL_CLOSURE, reason: String::new(), clean: false }
}

/// The close event a server reports for a close frame one of its peers sent.
pub fn peer_close_event(peer_id: u32, frame: Option<CloseFrame>) -> (e: NativePeerCloseEvent)
    ensures
        e@ == peer_close_event_for(peer_id, frame_view(frame)),
        e.peer_id == peer_id,
        frame matches Some(f) ==> e.code == f.code as u32 && e.reason@ == f.reason@ && e.clean,
        frame is None ==> e.code == 1005 && e.reason@ == Seq::<char>::empty() && e.clean,
{
    match frame {
        Some(f) => NativePeerCloseEvent { peer_id, code: f.code as u32, reason: f.reason, clean: true },
        None => NativePeerCloseEvent {
            peer_id,
            code: NO_STATUS_RECEIVED,
            reason: String::new(),
            clean: true,
        },
    }
}

/// The close event a server reports when a peer's connection ends without a
/// close frame.
pub fn peer_abnormal_close(peer_id: u32) -> (e: NativePeerCloseEvent)
    ensures
        e@ == peer_abnormal_close_event(peer_id),
{
    NativePeerCloseEvent { peer_id, code: ABNORMAL_CLOSURE, reason: String::new(), clean: false }
}

} // verus!
