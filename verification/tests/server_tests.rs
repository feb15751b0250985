use hmkit_ws_native::server::{
    handshake_failed, ListenEffect, ListenEvent, NativeWebSocketServer, PeerEffect, PeerSession,
    ServerListeners,
};
use hmkit_ws_native::session::SessionEvent;
use hmkit_ws_native::types::{CloseFrame, ErrorStatus, Payload, WsMessage};

fn all_listeners() -> ServerListeners {
    ServerListeners { peer_open: true, peer_message: true, peer_close: true, error: true }
}

fn no_listeners() -> ServerListeners {
    ServerListeners { peer_open: false, peer_message: false, peer_close: false, error: false }
}

#[test]
fn peer_ids_start_at_one_and_count_up() {
    let mut s: NativeWebSocketServer<u8> = NativeWebSocketServer::new();
    assert_eq!(s.allocate_peer_id(), 1);
    assert_eq!(s.allocate_peer_id(), 2);
    assert_eq!(s.allocate_peer_id(), 3);
}

#[test]
fn send_to_registered_peer_reaches_its_writer() {
    let mut s: NativeWebSocketServer<u8> = NativeWebSocketServer::new();
    s.register_peer(4, 40);
    s.register_peer(5, 50);
    match s.send(5, Payload::Text("hi".to_string())).unwrap() {
        (w, WsMessage::Text(t)) => {
            assert_eq!(*w, 50);
            assert_eq!(t, "hi");
        }
        other => panic!("unexpected {:?}", other),
    }
}

#[test]
fn send_to_unknown_peer_is_refused() {
    let mut s: NativeWebSocketServer<u8> = NativeWebSocketServer::new();
    s.register_peer(1, 10);
    s.unregister_peer(1);
    let error = s.send(1, Payload::Binary(vec![1])).unwrap_err();
    assert_eq!(error.status, ErrorStatus::InvalidArg);
    assert_eq!(error.reason, "Unknown peer");
    assert!(!s.has_peer(1));
}

#[test]
fn register_replaces_the_writer_of_the_same_id() {
    let mut s: NativeWebSocketServer<u8> = NativeWebSocketServer::new();
    s.register_peer(1, 10);
    s.register_peer(1, 11);
    assert_eq!(s.peer_count(), 1);
    let (w, _) = s.send(1, Payload::Text(String::new())).unwrap();
    assert_eq!(*w, 11);
}

#[test]
fn close_peer_passes_over_unknown_peers() {
    let mut s: NativeWebSocketServer<u8> = NativeWebSocketServer::new();
    assert!(s.close_peer(3, None, None).is_none());
    s.register_peer(3, 30);
    match s.close_peer(3, None, Some("bye".to_string())) {
        Some((w, WsMessage::Close(Some(CloseFrame { code, reason })))) => {
            assert_eq!(*w, 30);
            assert_eq!(code, 1000);
            assert_eq!(reason, "bye");
        }
        other => panic!("unexpected {:?}", other),
    }
}

#[test]
fn broadcast_reaches_every_peer_once() {
    let mut s: NativeWebSocketServer<u8> = NativeWebSocketServer::new();
    s.register_peer(1, 10);
    s.register_peer(2, 20);
    s.register_peer(3, 30);
    let mut plan = s.broadcast(&Payload::Text("all".to_string()));
    plan.sort_by_key(|t| t.0);
    assert_eq!(plan.len(), 3);
    for (i, (id, w, m)) in plan.iter().enumerate() {
        assert_eq!(*id as usize, i + 1);
        assert_eq!(**w as usize, (i + 1) * 10);
        assert!(matches!(m, WsMessage::Text(t) if t == "all"));
    }
    let mut ids = s.peer_ids();
    ids.sort();
    assert_eq!(ids, vec![1, 2, 3]);
}

#[test]
fn broadcast_to_no_peers_is_empty() {
    let s: NativeWebSocketServer<u8> = NativeWebSocketServer::new();
    assert!(s.broadcast(&Payload::Binary(vec![1])).is_empty());
}

#[test]
fn listener_accepts_reports_and_shuts_down() {
    let mut s: NativeWebSocketServer<u8> = NativeWebSocketServer::new();
    let r = s.on_listen_event(all_listeners(), ListenEvent::Accepted);
    assert!(!r.finished);
    assert!(matches!(r.effects.as_slice(), [ListenEffect::StartPeer(1)]));
    let r = s.on_listen_event(all_listeners(), ListenEvent::Accepted);
    assert!(matches!(r.effects.as_slice(), [ListenEffect::StartPeer(2)]));
    let r = s.on_listen_event(all_listeners(), ListenEvent::AcceptFailed("eof".to_string()));
    assert!(matches!(r.effects.as_slice(), [ListenEffect::NotifyError(e)] if e == "eof"));
    let r = s.on_listen_event(no_listeners(), ListenEvent::AcceptFailed("eof".to_string()));
    assert!(r.effects.is_empty());
    s.register_peer(1, 1);
    let r = s.on_listen_event(all_listeners(), ListenEvent::Shutdown);
    assert!(r.finished && r.effects.is_empty());
    assert_eq!(s.peer_count(), 0);
    assert_eq!(s.allocate_peer_id(), 3);
}

#[test]
fn peer_opening_registers_then_announces() {
    let p = PeerSession::new(7, all_listeners());
    assert!(matches!(p.opening().as_slice(), [PeerEffect::Register(7), PeerEffect::NotifyOpen(7)]));
    let p = PeerSession::new(7, no_listeners());
    assert!(matches!(p.opening().as_slice(), [PeerEffect::Register(7)]));
}

#[test]
fn handshake_failure_reports_error() {
    assert!(matches!(handshake_failed(all_listeners(), "bad".to_string()).as_slice(), [PeerEffect::NotifyError(e)] if e == "bad"));
    assert!(handshake_failed(no_listeners(), "bad".to_string()).is_empty());
}

#[test]
fn peer_messages_are_reported_with_their_peer() {
    let mut p = PeerSession::new(2, all_listeners());
    let r = p.handle(SessionEvent::Received(WsMessage::Text("m".to_string())));
    match r.effects.as_slice() {
        [PeerEffect::NotifyMessage(m)] => {
            assert_eq!(m.peer_id, 2);
            assert!(matches!(&m.data, Payload::Text(t) if t == "m"));
        }
        other => panic!("unexpected {:?}", other),
    }
    let r = p.handle(SessionEvent::Received(WsMessage::Pong(vec![1])));
    assert!(r.effects.is_empty() && !r.finished);
}

#[test]
fn peer_ping_is_answered() {
    let mut p = PeerSession::new(2, all_listeners());
    let r = p.handle(SessionEvent::Received(WsMessage::Ping(vec![5, 6])));
    assert!(!r.finished);
    assert!(matches!(r.effects.as_slice(), [PeerEffect::QueuePong(b)] if b == &vec![5, 6]));
}

#[test]
fn peer_close_frame_unregisters_then_reports_it() {
    let mut p = PeerSession::new(4, all_listeners());
    let frame = CloseFrame { code: 4000, reason: "later".to_string() };
    let r = p.handle(SessionEvent::Received(WsMessage::Close(Some(frame))));
    assert!(r.finished && p.is_finished());
    match r.effects.as_slice() {
        [PeerEffect::Unregister(4), PeerEffect::NotifyClose(e)] => {
            assert_eq!((e.peer_id, e.code, e.reason.as_str(), e.clean), (4, 4000, "later", true));
        }
        other => panic!("unexpected {:?}", other),
    }
}

#[test]
fn peer_end_without_frame_is_abnormal() {
    let mut p = PeerSession::new(4, all_listeners());
    let r = p.handle(SessionEvent::ReadEnded);
    match r.effects.as_slice() {
        [PeerEffect::Unregister(4), PeerEffect::NotifyClose(e)] => {
            assert_eq!((e.code, e.reason.as_str(), e.clean), (1006, "", false));
        }
        other => panic!("unexpected {:?}", other),
    }
    let mut p = PeerSession::new(4, all_listeners());
    let r = p.handle(SessionEvent::Received(WsMessage::Close(None)));
    assert!(matches!(r.effects.as_slice(), [PeerEffect::Unregister(4), PeerEffect::NotifyClose(e)] if e.code == 1005 && e.clean));
}

#[test]
fn peer_failure_unregisters_and_reports_error_without_close() {
    let mut p = PeerSession::new(8, all_listeners());
    let r = p.handle(SessionEvent::WriteFailed("pipe".to_string()));
    assert!(r.finished);
    assert!(matches!(r.effects.as_slice(), [PeerEffect::Unregister(8), PeerEffect::NotifyError(e)] if e == "pipe"));
    let mut p = PeerSession::new(8, no_listeners());
    let r = p.handle(SessionEvent::ReadFailed("reset".to_string()));
    assert!(matches!(r.effects.as_slice(), [PeerEffect::Unregister(8)]));
}

#[test]
fn peer_queue_write_and_quiet_ends() {
    let mut p = PeerSession::new(1, no_listeners());
    let r = p.handle(SessionEvent::Queued(WsMessage::Binary(vec![2])));
    assert!(matches!(r.effects.as_slice(), [PeerEffect::Write(WsMessage::Binary(b))] if b == &vec![2]));
    let r = p.handle(SessionEvent::QueueClosed);
    assert!(r.finished);
    assert!(matches!(r.effects.as_slice(), [PeerEffect::Unregister(1)]));
    let mut p = PeerSession::new(1, all_listeners());
    let r = p.handle(SessionEvent::PongRejected);
    assert!(matches!(r.effects.as_slice(), [PeerEffect::Unregister(1), PeerEffect::NotifyClose(e)] if e.code == 1006));
}

#[test]
fn a_peer_run_registers_first_and_unregisters_once_at_the_end() {
    let mut p = PeerSession::new(3, all_listeners());
    let mut all: Vec<PeerEffect> = p.opening();
    let events = vec![
        SessionEvent::Received(WsMessage::Text("x".to_string())),
        SessionEvent::Received(WsMessage::Ping(vec![1])),
        SessionEvent::Queued(WsMessage::Pong(vec![1])),
        SessionEvent::Received(WsMessage::Close(None)),
    ];
    for event in events {
        assert!(!p.is_finished());
        all.extend(p.handle(event).effects);
    }
    assert!(p.is_finished());
    assert!(matches!(all[0], PeerEffect::Register(3)));
    let unregisters: Vec<usize> = all
        .iter()
        .enumerate()
        .filter(|(_, e)| matches!(e, PeerEffect::Unregister(_)))
        .map(|(i, _)| i)
        .collect();
    assert_eq!(unregisters, vec![all.len() - 2]);
    assert!(matches!(all[all.len() - 1], PeerEffect::NotifyClose(_)));
}

#[test]
fn peer_registry_follows_a_peer_run() {
    let mut server: NativeWebSocketServer<u8> = NativeWebSocketServer::new();
    let id = server.allocate_peer_id();
    let mut p = PeerSession::new(id, no_listeners());
    for effect in p.opening() {
        if let PeerEffect::Register(i) = effect {
            server.register_peer(i, 42);
        }
    }
    assert!(server.send(id, Payload::Text("hi".to_string())).is_ok());
    for effect in p.handle(SessionEvent::ReadEnded).effects {
        if let PeerEffect::Unregister(i) = effect {
            server.unregister_peer(i);
        }
    }
    assert_eq!(server.send(id, Payload::Text("hi".to_string())).unwrap_err().reason, "Unknown peer");
}

#[test]
fn peer_writes_follow_queue_order() {
    let mut p = PeerSession::new(6, all_listeners());
    let mut written = Vec::new();
    for (i, event) in vec![
        SessionEvent::Queued(WsMessage::Text("1".to_string())),
        SessionEvent::Received(WsMessage::Text("in".to_string())),
        SessionEvent::Queued(WsMessage::Binary(vec![2])),
        SessionEvent::Queued(WsMessage::Text("3".to_string())),
    ]
    .into_iter()
    .enumerate()
    {
        for effect in p.handle(event).effects {
            if let PeerEffect::Write(m) = effect {
                written.push((i, m));
            }
        }
    }
    assert_eq!(written.len(), 3);
    assert!(matches!(&written[0], (0, WsMessage::Text(t)) if t == "1"));
    assert!(matches!(&written[1], (2, WsMessage::Binary(b)) if b == &vec![2]));
    assert!(matches!(&written[2], (3, WsMessage::Text(t)) if t == "3"));
}

#[test]
fn peer_open_is_announced_once() {
    let mut p = PeerSession::new(5, all_listeners());
    let mut all = p.opening();
    all.extend(p.handle(SessionEvent::Received(WsMessage::Ping(vec![]))).effects);
    all.extend(p.handle(SessionEvent::ReadEnded).effects);
    let opens: Vec<usize> = all
        .iter()
        .enumerate()
        .filter(|(_, e)| matches!(e, PeerEffect::NotifyOpen(_)))
        .map(|(i, _)| i)
        .collect();
    assert_eq!(opens, vec![1]);
}
