use hmkit_ws_native::client::{ClientEffect, ClientListeners, ClientSession, NativeWebSocketClient};
use hmkit_ws_native::session::SessionEvent;
use hmkit_ws_native::types::{CloseFrame, ErrorStatus, NativeClientConfig, Payload, WsMessage};

fn all_listeners() -> ClientListeners {
    ClientListeners { open: true, error: true, message: true, close: true, ping: true, pong: true }
}

fn no_listeners() -> ClientListeners {
    ClientListeners {
        open: false,
        error: false,
        message: false,
        close: false,
        ping: false,
        pong: false,
    }
}

fn client() -> NativeWebSocketClient<u8> {
    NativeWebSocketClient::new("ws://localhost:9001".to_string(), None)
}

#[test]
fn new_client_is_not_connected() {
    let c = client();
    assert!(!c.is_connected());
}

#[test]
fn send_before_connect_fails() {
    let c = client();
    let error = c.send(Payload::Text("hi".to_string())).unwrap_err();
    assert_eq!(error.status, ErrorStatus::GenericFailure);
    assert_eq!(error.reason, "WebSocket is not connected");
}

#[test]
fn send_after_attach_goes_to_the_writer() {
    let mut c = client();
    c.attach(7);
    assert!(c.is_connected());
    match c.send(Payload::Binary(vec![1, 2])).unwrap() {
        (w, WsMessage::Binary(b)) => {
            assert_eq!(*w, 7);
            assert_eq!(b, vec![1, 2]);
        }
        other => panic!("unexpected {:?}", other),
    }
}

#[test]
fn attach_replaces_the_earlier_writer() {
    let mut c = client();
    c.attach(1);
    c.attach(2);
    let (w, _) = c.send(Payload::Text("x".to_string())).unwrap();
    assert_eq!(*w, 2);
}

#[test]
fn send_after_detach_fails() {
    let mut c = client();
    c.attach(3);
    assert_eq!(c.detach(), Some(3));
    assert!(!c.is_connected());
    assert_eq!(c.detach(), None);
    let error = c.send(Payload::Text("x".to_string())).unwrap_err();
    assert_eq!(error.reason, "WebSocket is not connected");
}

#[test]
fn oversized_ping_is_refused_before_the_connection_is_checked() {
    let c = client();
    let error = c.ping(Some(vec![0u8; 200])).unwrap_err();
    assert_eq!(error.status, ErrorStatus::InvalidArg);
    assert_eq!(error.reason, "Ping payload exceeds 125 bytes");
    let error = c.ping(Some(vec![0u8; 10])).unwrap_err();
    assert_eq!(error.status, ErrorStatus::GenericFailure);
}

#[test]
fn ping_and_close_on_a_connected_client() {
    let mut c = client();
    c.attach(5);
    match c.ping(None).unwrap() {
        (w, WsMessage::Ping(b)) => {
            assert_eq!(*w, 5);
            assert!(b.is_empty());
        }
        other => panic!("unexpected {:?}", other),
    }
    match c.close(Some(1001), Some("away".to_string())).unwrap() {
        (_, WsMessage::Close(Some(CloseFrame { code, reason }))) => {
            assert_eq!(code, 1001);
            assert_eq!(reason, "away");
        }
        other => panic!("unexpected {:?}", other),
    }
}

#[test]
fn close_on_a_disconnected_client_fails() {
    let c = client();
    assert_eq!(c.close(None, None).unwrap_err().reason, "WebSocket is not connected");
}

#[test]
fn connect_request_uses_url_and_headers() {
    let c: NativeWebSocketClient<u8> = NativeWebSocketClient::new(
        "ws://localhost:9001".to_string(),
        NativeClientConfig::new(Some(vec![("X-A".to_string(), "1".to_string())])),
    );
    let request = c.connect_request().unwrap();
    assert_eq!(request.headers().get("x-a").unwrap(), "1");
    let bad: NativeWebSocketClient<u8> = NativeWebSocketClient::new(
        "ws://localhost".to_string(),
        NativeClientConfig::new(Some(vec![("a b".to_string(), "1".to_string())])),
    );
    assert_eq!(bad.connect_request().unwrap_err().reason, "invalid HTTP header name");
}

#[test]
fn opening_notifies_only_with_a_listener() {
    let s = ClientSession::new(all_listeners());
    assert!(matches!(s.opening().as_slice(), [ClientEffect::NotifyOpen]));
    let s = ClientSession::new(no_listeners());
    assert!(s.opening().is_empty());
}

#[test]
fn queued_message_is_written() {
    let mut s = ClientSession::new(no_listeners());
    let r = s.handle(SessionEvent::Queued(WsMessage::Text("a".to_string())));
    assert!(!r.finished);
    assert!(matches!(r.effects.as_slice(), [ClientEffect::Write(WsMessage::Text(t))] if t == "a"));
    assert!(!s.is_finished());
}

#[test]
fn ping_is_reported_and_answered_with_same_bytes() {
    let mut s = ClientSession::new(all_listeners());
    let r = s.handle(SessionEvent::Received(WsMessage::Ping(vec![9, 8])));
    assert!(!r.finished);
    match r.effects.as_slice() {
        [ClientEffect::NotifyPing(a), ClientEffect::QueuePong(b)] => {
            assert_eq!(a, &vec![9, 8]);
            assert_eq!(b, &vec![9, 8]);
        }
        other => panic!("unexpected {:?}", other),
    }
    let mut s = ClientSession::new(no_listeners());
    let r = s.handle(SessionEvent::Received(WsMessage::Ping(vec![1])));
    assert!(matches!(r.effects.as_slice(), [ClientEffect::QueuePong(b)] if b == &vec![1]));
}

#[test]
fn text_binary_and_pong_are_reported() {
    let mut s = ClientSession::new(all_listeners());
    let r = s.handle(SessionEvent::Received(WsMessage::Text("t".to_string())));
    assert!(matches!(r.effects.as_slice(), [ClientEffect::NotifyMessage(Payload::Text(t))] if t == "t"));
    let r = s.handle(SessionEvent::Received(WsMessage::Binary(vec![3])));
    assert!(matches!(r.effects.as_slice(), [ClientEffect::NotifyMessage(Payload::Binary(b))] if b == &vec![3]));
    let r = s.handle(SessionEvent::Received(WsMessage::Pong(vec![4])));
    assert!(matches!(r.effects.as_slice(), [ClientEffect::NotifyPong(b)] if b == &vec![4]));
    let r = s.handle(SessionEvent::ReceivedRaw);
    assert!(r.effects.is_empty() && !r.finished);
}

#[test]
fn messages_without_listener_are_dropped() {
    let mut s = ClientSession::new(no_listeners());
    let r = s.handle(SessionEvent::Received(WsMessage::Text("t".to_string())));
    assert!(r.effects.is_empty() && !r.finished);
    let r = s.handle(SessionEvent::Received(WsMessage::Pong(vec![4])));
    assert!(r.effects.is_empty());
}

#[test]
fn close_frame_ends_the_session_cleanly() {
    let mut s = ClientSession::new(all_listeners());
    let frame = CloseFrame { code: 1000, reason: "bye".to_string() };
    let r = s.handle(SessionEvent::Received(WsMessage::Close(Some(frame))));
    assert!(r.finished);
    assert!(s.is_finished());
    match r.effects.as_slice() {
        [ClientEffect::NotifyClose(e), ClientEffect::Disconnect] => {
            assert_eq!((e.code, e.reason.as_str(), e.clean), (1000, "bye", true));
        }
        other => panic!("unexpected {:?}", other),
    }
}

#[test]
fn end_of_stream_reports_abnormal_closure() {
    let mut s = ClientSession::new(all_listeners());
    let r = s.handle(SessionEvent::ReadEnded);
    assert!(r.finished);
    match r.effects.as_slice() {
        [ClientEffect::NotifyClose(e), ClientEffect::Disconnect] => {
            assert_eq!((e.code, e.reason.as_str(), e.clean), (1006, "", false));
        }
        other => panic!("unexpected {:?}", other),
    }
}

#[test]
fn read_and_write_failures_report_errors() {
    let mut s = ClientSession::new(all_listeners());
    let r = s.handle(SessionEvent::ReadFailed("reset".to_string()));
    assert!(r.finished);
    assert!(matches!(r.effects.as_slice(), [ClientEffect::NotifyError(e), ClientEffect::Disconnect] if e == "reset"));
    let mut s = ClientSession::new(no_listeners());
    let r = s.handle(SessionEvent::WriteFailed("broken".to_string()));
    assert!(r.finished);
    assert!(matches!(r.effects.as_slice(), [ClientEffect::Disconnect]));
}

#[test]
fn closed_queue_and_rejected_pong_end_silently() {
    let mut s = ClientSession::new(all_listeners());
    let r = s.handle(SessionEvent::QueueClosed);
    assert!(r.finished);
    assert!(matches!(r.effects.as_slice(), [ClientEffect::Disconnect]));
    let mut s = ClientSession::new(all_listeners());
    let r = s.handle(SessionEvent::PongRejected);
    assert!(r.finished);
    assert!(matches!(r.effects.as_slice(), [ClientEffect::Disconnect]));
}

#[test]
fn a_run_detaches_its_writer_once_at_the_end() {
    let mut s = ClientSession::new(all_listeners());
    let mut all: Vec<ClientEffect> = s.opening();
    let events = vec![
        SessionEvent::Queued(WsMessage::Text("a".to_string())),
        SessionEvent::Received(WsMessage::Ping(vec![1])),
        SessionEvent::ReceivedRaw,
        SessionEvent::Received(WsMessage::Binary(vec![2])),
        SessionEvent::ReadEnded,
    ];
    for event in events {
        assert!(!s.is_finished());
        all.extend(s.handle(event).effects);
    }
    assert!(s.is_finished());
    let disconnects: Vec<usize> = all
        .iter()
        .enumerate()
        .filter(|(_, e)| matches!(e, ClientEffect::Disconnect))
        .map(|(i, _)| i)
        .collect();
    assert_eq!(disconnects, vec![all.len() - 1]);
    assert!(matches!(all[0], ClientEffect::NotifyOpen));
}

#[test]
fn close_frame_without_status_is_reported_as_1005_clean() {
    let mut s = ClientSession::new(all_listeners());
    let r = s.handle(SessionEvent::Received(WsMessage::Close(None)));
    assert!(r.finished);
    match r.effects.as_slice() {
        [ClientEffect::NotifyClose(e), ClientEffect::Disconnect] => {
            assert_eq!((e.code, e.reason.as_str(), e.clean), (1005, "", true));
        }
        other => panic!("unexpected {:?}", other),
    }
}

#[test]
fn client_writes_follow_queue_order() {
    let mut s = ClientSession::new(all_listeners());
    let mut written = Vec::new();
    for event in vec![
        SessionEvent::Queued(WsMessage::Text("a".to_string())),
        SessionEvent::Received(WsMessage::Ping(vec![1])),
        SessionEvent::Queued(WsMessage::Pong(vec![1])),
        SessionEvent::Queued(WsMessage::Binary(vec![9])),
    ] {
        for effect in s.handle(event).effects {
            if let ClientEffect::Write(m) = effect {
                written.push(m);
            }
        }
    }
    assert_eq!(written.len(), 3);
    assert!(matches!(&written[0], WsMessage::Text(t) if t == "a"));
    assert!(matches!(&written[1], WsMessage::Pong(b) if b == &vec![1]));
    assert!(matches!(&written[2], WsMessage::Binary(b) if b == &vec![9]));
}
