use hmkit_ws_native::request::{apply_headers, connect_request};
use hmkit_ws_native::types::{ErrorStatus, NativeClientConfig};
use tokio_tungstenite::tungstenite::client::IntoClientRequest;
use tokio_tungstenite::tungstenite::http::Uri;

fn config(headers: Vec<(&str, &str)>) -> Option<NativeClientConfig> {
    Some(
        NativeClientConfig::new(Some(
            headers.into_iter().map(|(a, b)| (a.to_string(), b.to_string())).collect(),
        ))
        .unwrap(),
    )
}

#[test]
fn valid_url_without_options_is_accepted() {
    let request = connect_request("ws://127.0.0.1:9001/socket", &None).unwrap();
    assert_eq!(request.uri().to_string(), "ws://127.0.0.1:9001/socket");
    assert_eq!(request.headers().get("Host").unwrap(), "127.0.0.1:9001");
}

#[test]
fn configured_headers_are_added() {
    let request = connect_request(
        "wss://example.com/realtime",
        &config(vec![("X-Token", "abc"), ("Authorization", "Bearer t")]),
    )
    .unwrap();
    assert_eq!(request.headers().get("x-token").unwrap(), "abc");
    assert_eq!(request.headers().get("authorization").unwrap(), "Bearer t");
}

#[test]
fn invalid_url_is_refused_with_its_error() {
    let expected = "not a url".into_client_request().unwrap_err().to_string();
    let error = connect_request("not a url", &config(vec![("bad name", "v")])).unwrap_err();
    assert_eq!(error.status, ErrorStatus::InvalidArg);
    assert_eq!(error.reason, expected);
}

#[test]
fn invalid_header_name_is_refused() {
    let error = connect_request("ws://localhost", &config(vec![("bad name", "v")])).unwrap_err();
    assert_eq!(error.status, ErrorStatus::InvalidArg);
    assert_eq!(error.reason, "invalid HTTP header name");
}

#[test]
fn empty_header_name_is_refused() {
    let error = connect_request("ws://localhost", &config(vec![("", "v")])).unwrap_err();
    assert_eq!(error.reason, "invalid HTTP header name");
}

#[test]
fn invalid_header_value_is_refused() {
    let error = connect_request("ws://localhost", &config(vec![("X-Ok", "line\nbreak")])).unwrap_err();
    assert_eq!(error.status, ErrorStatus::InvalidArg);
    assert_eq!(error.reason, "failed to parse header value");
}

#[test]
fn first_refused_header_decides_the_error() {
    let error = connect_request(
        "ws://localhost",
        &config(vec![("X-A", "fine"), ("X-B", "bad\u{7f}"), ("bad name", "v")]),
    )
    .unwrap_err();
    assert_eq!(error.reason, "failed to parse header value");
}

#[test]
fn header_value_may_hold_tab_and_non_ascii() {
    assert!(connect_request("ws://localhost", &config(vec![("X-A", "a\tb é")])).is_ok());
}

#[test]
fn apply_headers_passes_on_a_refused_url() {
    let error = apply_headers(Err("boom".to_string()), &vec![]).unwrap_err();
    assert_eq!(error.status, ErrorStatus::InvalidArg);
    assert_eq!(error.reason, "boom");
}

#[test]
fn apply_headers_adds_to_a_given_request() {
    let request = "ws://localhost".into_client_request().unwrap();
    let request = apply_headers(Ok(request), &vec![("X-Name".to_string(), "v".to_string())]).unwrap();
    assert_eq!(request.headers().get("x-name").unwrap(), "v");
}

#[test]
fn request_is_the_handshake_for_the_url() {
    let url = "ws://user@example.com:8080/chat?room=1";
    let request = connect_request(url, &config(vec![("X-Extra", "yes")])).unwrap();
    assert_eq!(request.uri().to_string(), url.parse::<Uri>().unwrap().to_string());
    let headers = request.headers();
    assert_eq!(headers.get("host").unwrap(), "example.com:8080");
    assert_eq!(headers.get("connection").unwrap(), "Upgrade");
    assert_eq!(headers.get("upgrade").unwrap(), "websocket");
    assert_eq!(headers.get("sec-websocket-version").unwrap(), "13");
    assert_eq!(headers.get_all("sec-websocket-key").iter().count(), 1);
    assert_eq!(headers.get("x-extra").unwrap(), "yes");
    assert_eq!(headers.len(), 6);
}

#[test]
fn configured_header_replaces_a_handshake_header_of_the_same_name() {
    let request = connect_request("ws://localhost", &config(vec![("UPGRADE", "other")])).unwrap();
    let values: Vec<_> = request.headers().get_all("upgrade").iter().collect();
    assert_eq!(values, vec!["other"]);
    assert_eq!(request.headers().len(), 5);
}

#[test]
fn duplicate_header_names_are_refused_as_options() {
    assert!(NativeClientConfig::new(Some(vec![
        ("A".to_string(), "1".to_string()),
        ("A".to_string(), "2".to_string()),
    ]))
    .is_none());
    let c = NativeClientConfig::new(Some(vec![
        ("A".to_string(), "1".to_string()),
        ("a".to_string(), "2".to_string()),
    ]))
    .unwrap();
    assert_eq!(c.headers().as_ref().unwrap().len(), 2);
    assert!(NativeClientConfig::new(None).unwrap().into_headers().is_none());
}

#[test]
fn many_headers_are_all_set() {
    let names: Vec<(String, String)> = (0..3000).map(|i| (format!("x-h{}", i), "v".to_string())).collect();
    let request = connect_request("ws://localhost", &Some(NativeClientConfig::new(Some(names)).unwrap())).unwrap();
    assert_eq!(request.headers().len(), 3005);
    assert_eq!(request.headers().get("x-h2999").unwrap(), "v");
}

#[test]
fn too_many_headers_are_refused_without_panic() {
    let names: Vec<(String, String)> = (0..30000).map(|i| (format!("x-h{}", i), "v".to_string())).collect();
    let error = connect_request("ws://localhost", &Some(NativeClientConfig::new(Some(names)).unwrap())).unwrap_err();
    assert_eq!(error.status, ErrorStatus::InvalidArg);
    assert_eq!(error.reason, "max size reached");
}
