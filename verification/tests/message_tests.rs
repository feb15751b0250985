use hmkit_ws_native::message::{
    abnormal_close, close_event, close_message, message_for_payload, peer_abnormal_close,
    peer_close_event, ping_message, truncate_close_code, ABNORMAL_CLOSURE, MAX_CONTROL_PAYLOAD,
    NORMAL_CLOSURE, NO_STATUS_RECEIVED,
};
use hmkit_ws_native::types::{copy_bytes, CloseFrame, ErrorStatus, NativeError, Payload, WsMessage};

#[test]
fn text_payload_becomes_text_message() {
    match message_for_payload(Payload::Text("hello".to_string())) {
        WsMessage::Text(s) => assert_eq!(s, "hello"),
        other => panic!("unexpected {:?}", other),
    }
}

#[test]
fn binary_payload_becomes_binary_message() {
    match message_for_payload(Payload::Binary(vec![1, 2, 3])) {
        WsMessage::Binary(b) => assert_eq!(b, vec![1, 2, 3]),
        other => panic!("unexpected {:?}", other),
    }
}

#[test]
fn ping_without_data_is_empty() {
    match ping_message(None) {
        Ok(WsMessage::Ping(b)) => assert!(b.is_empty()),
        other => panic!("unexpected {:?}", other),
    }
}

#[test]
fn ping_of_exactly_125_bytes_is_accepted() {
    match ping_message(Some(vec![7u8; MAX_CONTROL_PAYLOAD])) {
        Ok(WsMessage::Ping(b)) => assert_eq!(b, vec![7u8; 125]),
        other => panic!("unexpected {:?}", other),
    }
}

#[test]
fn ping_of_126_bytes_is_refused() {
    match ping_message(Some(vec![0u8; 126])) {
        Err(NativeError { status, reason }) => {
            assert_eq!(status, ErrorStatus::InvalidArg);
            assert_eq!(reason, "Ping payload exceeds 125 bytes");
        }
        other => panic!("unexpected {:?}", other),
    }
}

#[test]
fn close_without_code_is_normal_closure_with_empty_reason() {
    match close_message(None, None) {
        WsMessage::Close(Some(CloseFrame { code, reason })) => {
            assert_eq!(code, NORMAL_CLOSURE);
            assert_eq!(code, 1000);
            assert_eq!(reason, "");
        }
        other => panic!("unexpected {:?}", other),
    }
}

#[test]
fn close_keeps_a_code_that_fits() {
    match close_message(Some(4001), Some("bye".to_string())) {
        WsMessage::Close(Some(CloseFrame { code, reason })) => {
            assert_eq!(code, 4001);
            assert_eq!(reason, "bye");
        }
        other => panic!("unexpected {:?}", other),
    }
}

#[test]
fn close_truncates_a_code_to_sixteen_bits() {
    match close_message(Some(0x1_03E8), None) {
        WsMessage::Close(Some(CloseFrame { code, .. })) => assert_eq!(code, 1000),
        other => panic!("unexpected {:?}", other),
    }
    assert_eq!(truncate_close_code(70000), 4464);
    assert_eq!(truncate_close_code(u32::MAX), u16::MAX);
}

#[test]
fn close_event_with_frame_reports_it() {
    let e = close_event(Some(CloseFrame { code: 1001, reason: "away".to_string() }));
    assert_eq!(e.code, 1001);
    assert_eq!(e.reason, "away");
    assert!(e.clean);
}

#[test]
fn close_event_without_status_is_no_status_received_and_clean() {
    let e = close_event(None);
    assert_eq!(e.code, NO_STATUS_RECEIVED);
    assert_eq!(e.code, 1005);
    assert_eq!(e.reason, "");
    assert!(e.clean);
}

#[test]
fn abnormal_close_is_1006_and_not_clean() {
    let e = abnormal_close();
    assert_eq!(e.code, ABNORMAL_CLOSURE);
    assert_eq!(e.code, 1006);
    assert_eq!(e.reason, "");
    assert!(!e.clean);
    let e = peer_abnormal_close(3);
    assert_eq!((e.peer_id, e.code, e.reason.as_str(), e.clean), (3, 1006, "", false));
}

#[test]
fn peer_close_event_with_and_without_frame() {
    let e = peer_close_event(9, Some(CloseFrame { code: 3000, reason: "done".to_string() }));
    assert_eq!((e.peer_id, e.code, e.reason.as_str(), e.clean), (9, 3000, "done", true));
    let e = peer_close_event(9, None);
    assert_eq!((e.peer_id, e.code, e.reason.as_str(), e.clean), (9, 1005, "", true));
}

#[test]
fn payload_duplicate_and_byte_copy_keep_contents() {
    assert_eq!(copy_bytes(&vec![4, 5, 6]), vec![4, 5, 6]);
    match Payload::Text("x".to_string()).duplicate() {
        Payload::Text(s) => assert_eq!(s, "x"),
        other => panic!("unexpected {:?}", other),
    }
}

#[test]
fn error_constructors_set_status() {
    let e = NativeError::invalid_arg("a".to_string());
    assert_eq!(e.status, ErrorStatus::InvalidArg);
    let e = NativeError::generic_failure("b".to_string());
    assert_eq!(e.status, ErrorStatus::GenericFailure);
    assert_eq!(e.reason, "b");
}
