use tcp_over_ws_rust::client_connection::{
    init_message, ClientConnection, OpenAction, OpenError, Route,
};
use tcp_over_ws_rust::grpc_service::{
    read_init, CallAction, CallEvent, Code, FirstRead, Status, TunnelCall,
};
use tcp_over_ws_rust::message::{data_message, Message, MessageType, TunnelMessage};
use tcp_over_ws_rust::server_connection::{
    ConnectionError, ServerAction, ServerConnection, ServerEvent,
};
use tcp_over_ws_rust::tunnel_id::{tunnel_id, TunnelKind};

fn upgraded() -> ServerConnection {
    let mut c = ServerConnection::new();
    assert_eq!(c.step(ServerEvent::Done(true)), Some(ServerAction::AwaitName));
    c
}

fn text(s: &str) -> ServerEvent {
    ServerEvent::First(Some(Message::Text(s.to_string())))
}

#[test]
fn a_tcp_tunnel_is_opened_by_its_name() {
    let mut c = upgraded();
    assert_eq!(
        c.step(text("T-1")),
        Some(ServerAction::Register("T-1".to_string()))
    );
    assert_eq!(c.step(ServerEvent::Registered), Some(ServerAction::ConnectTcp));
    assert_eq!(
        c.step(ServerEvent::Done(true)),
        Some(ServerAction::Relay {
            uuid: "T-1".to_string(),
            kind: TunnelKind::Tcp
        })
    );
    assert_eq!(c.step(ServerEvent::Done(true)), None);
}

#[test]
fn a_udp_tunnel_is_opened_by_its_name() {
    let id = tunnel_id(TunnelKind::Udp, 5);
    let mut c = upgraded();
    assert_eq!(c.step(text(&id)), Some(ServerAction::Register(id.clone())));
    assert_eq!(c.step(ServerEvent::Registered), Some(ServerAction::BindUdp));
    assert_eq!(c.step(ServerEvent::Done(true)), Some(ServerAction::ConnectUdp));
    assert_eq!(
        c.step(ServerEvent::Done(true)),
        Some(ServerAction::Relay {
            uuid: id,
            kind: TunnelKind::Udp
        })
    );
}

#[test]
fn a_client_without_a_name_is_rejected() {
    for first in [
        None,
        Some(Message::Binary(vec![84])),
        Some(Message::Ping(vec![])),
        Some(Message::Close),
    ] {
        let mut c = upgraded();
        assert_eq!(c.step(ServerEvent::First(first)), Some(ServerAction::Reject));
        assert_eq!(c.step(text("T-1")), None);
    }
    assert_eq!(
        ConnectionError::NoName.text(),
        "Client failed to send UUID on time."
    );
}

#[test]
fn each_failure_of_the_server_has_its_error() {
    let mut c = ServerConnection::new();
    assert_eq!(
        c.step(ServerEvent::Done(false)),
        Some(ServerAction::Fail(ConnectionError::Handshake))
    );
    assert_eq!(c.step(ServerEvent::Done(true)), None);

    let mut c = upgraded();
    c.step(text("T-1"));
    c.step(ServerEvent::Registered);
    assert_eq!(
        c.step(ServerEvent::Done(false)),
        Some(ServerAction::Fail(ConnectionError::ConnectTcp))
    );

    let mut c = upgraded();
    c.step(text("U-1"));
    c.step(ServerEvent::Registered);
    assert_eq!(
        c.step(ServerEvent::Done(false)),
        Some(ServerAction::Fail(ConnectionError::BindUdp))
    );

    let mut c = upgraded();
    c.step(text("U-1"));
    c.step(ServerEvent::Registered);
    c.step(ServerEvent::Done(true));
    assert_eq!(
        c.step(ServerEvent::Done(false)),
        Some(ServerAction::Fail(ConnectionError::ConnectUdp))
    );

    assert_eq!(ConnectionError::Handshake.text(), "WebSocket handshake failed");
    assert_eq!(
        ConnectionError::BindUdp.text(),
        "Failed to bind local UDP socket"
    );
    assert_eq!(
        ConnectionError::ConnectUdp.text(),
        "Failed to connect to target UDP address"
    );
    assert_eq!(
        ConnectionError::ConnectTcp.text(),
        "Failed to connect to target TCP address"
    );
}

#[test]
fn events_out_of_turn_change_nothing() {
    let mut c = upgraded();
    assert_eq!(c.step(ServerEvent::Registered), None);
    assert_eq!(c.step(ServerEvent::Done(false)), None);
    assert_eq!(
        c.step(text("T-1")),
        Some(ServerAction::Register("T-1".to_string()))
    );
    assert_eq!(c.step(text("T-2")), None);
    assert_eq!(c.step(ServerEvent::Registered), Some(ServerAction::ConnectTcp));
}

fn status(code: Code, message: &str) -> Status {
    Status {
        code,
        message: message.to_string(),
    }
}

#[test]
fn only_an_init_message_opens_a_call() {
    assert_eq!(
        read_init(FirstRead::Ended),
        Err(status(Code::InvalidArgument, "Missing init message"))
    );
    assert_eq!(
        read_init(FirstRead::Failed("broken".to_string())),
        Err(status(Code::Internal, "Stream error: broken"))
    );
    assert_eq!(
        read_init(FirstRead::Message(data_message(vec![1]))),
        Err(status(Code::InvalidArgument, "First message must be init"))
    );
    assert_eq!(
        read_init(FirstRead::Message(TunnelMessage { message_type: None })),
        Err(status(Code::InvalidArgument, "First message must be init"))
    );
    assert_eq!(
        read_init(FirstRead::Message(init_message(
            TunnelKind::Udp,
            "U-9".to_string()
        ))),
        Ok("U-9".to_string())
    );
}

fn init(kind: TunnelKind) -> CallEvent {
    CallEvent::First(FirstRead::Message(init_message(kind, "x".to_string())))
}

#[test]
fn a_call_is_served() {
    let mut c = TunnelCall::new(TunnelKind::Tcp);
    assert_eq!(
        c.step(init(TunnelKind::Tcp)),
        Some(CallAction::Register("x".to_string()))
    );
    assert_eq!(c.step(CallEvent::Registered), Some(CallAction::ConnectTcp));
    assert_eq!(
        c.step(CallEvent::Done(Ok(()))),
        Some(CallAction::Serve("x".to_string()))
    );
    assert_eq!(c.step(CallEvent::Done(Ok(()))), None);

    let mut c = TunnelCall::new(TunnelKind::Udp);
    c.step(init(TunnelKind::Udp));
    assert_eq!(c.step(CallEvent::Registered), Some(CallAction::BindUdp));
    assert_eq!(c.step(CallEvent::Done(Ok(()))), Some(CallAction::ConnectUdp));
    assert_eq!(
        c.step(CallEvent::Done(Ok(()))),
        Some(CallAction::Serve("x".to_string()))
    );
}

#[test]
fn a_call_is_refused() {
    let mut c = TunnelCall::new(TunnelKind::Tcp);
    assert_eq!(
        c.step(CallEvent::First(FirstRead::Ended)),
        Some(CallAction::Refuse(status(
            Code::InvalidArgument,
            "Missing init message"
        )))
    );
    assert_eq!(c.step(init(TunnelKind::Tcp)), None);

    let mut c = TunnelCall::new(TunnelKind::Tcp);
    c.step(init(TunnelKind::Tcp));
    c.step(CallEvent::Registered);
    assert_eq!(
        c.step(CallEvent::Done(Err("refused".to_string()))),
        Some(CallAction::Refuse(status(
            Code::Internal,
            "Failed to connect to target: refused"
        )))
    );

    let mut c = TunnelCall::new(TunnelKind::Udp);
    c.step(init(TunnelKind::Udp));
    c.step(CallEvent::Registered);
    assert_eq!(
        c.step(CallEvent::Done(Err("no port".to_string()))),
        Some(CallAction::Refuse(status(
            Code::Internal,
            "Failed to bind UDP socket: no port"
        )))
    );

    let mut c = TunnelCall::new(TunnelKind::Udp);
    c.step(init(TunnelKind::Udp));
    c.step(CallEvent::Registered);
    c.step(CallEvent::Done(Ok(())));
    assert_eq!(
        c.step(CallEvent::Done(Err("gone".to_string()))),
        Some(CallAction::Refuse(status(
            Code::Internal,
            "Failed to connect to target: gone"
        )))
    );
}

#[test]
fn a_websocket_client_greets_with_its_name() {
    let (mut c, first) = ClientConnection::new(Route::WebSocketTcp, "T-1".to_string());
    assert_eq!(first, OpenAction::Connect);
    let greeting = match c.step(true) {
        Some(OpenAction::Greet(m)) => m,
        other => panic!("{:?}", other),
    };
    assert_eq!(greeting, Message::Text("T-1".to_string()));
    assert_eq!(c.step(true), Some(OpenAction::Relay));
    assert_eq!(c.step(true), None);
    let mut server = upgraded();
    assert_eq!(
        server.step(ServerEvent::First(Some(greeting))),
        Some(ServerAction::Register("T-1".to_string()))
    );
}

#[test]
fn a_grpc_client_sends_init_first() {
    let (mut c, first) = ClientConnection::new(Route::GrpcTcp, "T-1".to_string());
    assert_eq!(first, OpenAction::Connect);
    assert_eq!(
        c.step(true),
        Some(OpenAction::Init(TunnelMessage {
            message_type: Some(MessageType::Init {
                uuid: "T-1".to_string(),
                protocol: "tcp".to_string()
            })
        }))
    );
    assert_eq!(c.step(true), Some(OpenAction::OpenStream));
    assert_eq!(c.step(true), Some(OpenAction::Relay));
    assert_eq!(c.step(false), None);

    let (mut c, first) = ClientConnection::new(Route::GrpcUdp, "U-1".to_string());
    assert_eq!(first, OpenAction::Bind);
    assert_eq!(c.step(true), Some(OpenAction::Connect));
    assert_eq!(
        c.step(true),
        Some(OpenAction::Init(TunnelMessage {
            message_type: Some(MessageType::Init {
                uuid: "U-1".to_string(),
                protocol: "udp".to_string()
            })
        }))
    );
    assert_eq!(c.step(true), Some(OpenAction::OpenStream));
    assert_eq!(c.step(true), Some(OpenAction::Relay));
}

#[test]
fn each_failure_of_the_client_has_its_error() {
    let cases = [
        (Route::WebSocketTcp, 0, OpenError::ConnectWebSocket),
        (Route::WebSocketTcp, 1, OpenError::Greet),
        (Route::GrpcTcp, 0, OpenError::ConnectGrpc),
        (Route::GrpcTcp, 1, OpenError::Greet),
        (Route::GrpcTcp, 2, OpenError::OpenStream),
        (Route::GrpcUdp, 0, OpenError::Bind),
        (Route::GrpcUdp, 1, OpenError::ConnectGrpc),
        (Route::GrpcUdp, 2, OpenError::Greet),
        (Route::GrpcUdp, 3, OpenError::OpenStream),
    ];
    for (route, successes, error) in cases {
        let (mut c, _) = ClientConnection::new(route, "x".to_string());
        for _ in 0..successes {
            c.step(true);
        }
        assert_eq!(c.step(false), Some(OpenAction::Fail(error)));
        assert_eq!(c.step(true), None);
    }
    assert_eq!(
        OpenError::Bind.context(),
        Some("Failed to bind local UDP socket".to_string())
    );
    assert_eq!(
        OpenError::ConnectWebSocket.context(),
        Some("Failed to connect to WebSocket server".to_string())
    );
    assert_eq!(
        OpenError::ConnectGrpc.context(),
        Some("Failed to connect to gRPC server".to_string())
    );
    assert_eq!(OpenError::Greet.context(), None);
    assert_eq!(OpenError::OpenStream.context(), None);
}
