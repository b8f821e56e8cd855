use tcp_over_ws_rust::endpoint::{client_endpoint, server_protocol, Protocol};

#[test]
fn protocol_names() {
    assert_eq!(server_protocol("grpc"), Protocol::Grpc);
    assert_eq!(server_protocol("ws"), Protocol::WebSocket);
    assert_eq!(server_protocol("GRPC"), Protocol::WebSocket);
    assert_eq!(server_protocol(""), Protocol::WebSocket);
}

#[test]
fn websocket_addresses_are_kept() {
    let e = client_endpoint("ws://your-server.com:8080".to_string());
    assert_eq!(e.protocol, Protocol::WebSocket);
    assert_eq!(e.url, "ws://your-server.com:8080");
    let e = client_endpoint("wss://a/grpc://b".to_string());
    assert_eq!(e.protocol, Protocol::WebSocket);
    assert_eq!(e.url, "wss://a/grpc://b");
}

#[test]
fn grpc_addresses_are_rewritten() {
    let e = client_endpoint("grpc://example.com:8080".to_string());
    assert_eq!(e.protocol, Protocol::Grpc);
    assert_eq!(e.url, "http://example.com:8080");
    let e = client_endpoint("grpcs://example.com".to_string());
    assert_eq!(e.protocol, Protocol::Grpc);
    assert_eq!(e.url, "https://example.com");
    let e = client_endpoint("grpc://a/grpcs://b/grpc://c".to_string());
    assert_eq!(e.url, "http://a/https://b/http://c");
}
