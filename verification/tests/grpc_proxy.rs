use tcp_over_ws_rust::grpc_proxy::{
    GrpcAction, GrpcEvent, GrpcProxy, GrpcSide, GrpcStep, Inbound,
};
use tcp_over_ws_rust::message::{
    close_message, data_message, pong_message, MessageType, TunnelMessage,
};

const ALL: [GrpcSide; 3] = [GrpcSide::ServerTcp, GrpcSide::ServerUdp, GrpcSide::ClientTcp];

const WAIT: GrpcAction = GrpcAction::Wait {
    link: true,
    socket: true,
};

fn message(t: MessageType) -> TunnelMessage {
    TunnelMessage {
        message_type: Some(t),
    }
}

fn link(t: MessageType) -> GrpcEvent {
    GrpcEvent::Link(Inbound::Message(message(t)))
}

fn step(touch: bool, action: GrpcAction) -> GrpcStep {
    GrpcStep {
        touch,
        action,
        remove: false,
    }
}

fn ended(side: GrpcSide, touch: bool) -> GrpcStep {
    if side == GrpcSide::ClientTcp {
        step(false, GrpcAction::Finish(None))
    } else {
        GrpcStep {
            touch,
            action: GrpcAction::Finish(Some(message(MessageType::Close {
                reason: "Connection closed".to_string(),
            }))),
            remove: true,
        }
    }
}

#[test]
fn messages_are_built() {
    assert_eq!(
        data_message(vec![1]),
        message(MessageType::Data { payload: vec![1] })
    );
    assert_eq!(
        pong_message(-4),
        message(MessageType::Pong { timestamp: -4 })
    );
    assert_eq!(
        close_message(),
        message(MessageType::Close {
            reason: "Connection closed".to_string()
        })
    );
}

#[test]
fn grpc_data_passes_both_ways() {
    for side in ALL {
        let server = side != GrpcSide::ClientTcp;
        let mut p = GrpcProxy::new(side);
        assert_eq!(
            p.step(link(MessageType::Data {
                payload: vec![1, 2]
            })),
            step(server, GrpcAction::WriteSocket(vec![1, 2]))
        );
        assert_eq!(p.step(GrpcEvent::Delivered(true)), step(false, WAIT));
        assert_eq!(
            p.step(GrpcEvent::Socket(Some(vec![3]))),
            step(
                server,
                GrpcAction::SendLink(message(MessageType::Data { payload: vec![3] }))
            )
        );
    }
}

#[test]
fn the_server_answers_pings_and_the_client_does_not() {
    for side in [GrpcSide::ServerTcp, GrpcSide::ServerUdp] {
        let mut p = GrpcProxy::new(side);
        assert_eq!(
            p.step(link(MessageType::Ping { timestamp: 99 })),
            step(
                true,
                GrpcAction::SendLink(message(MessageType::Pong { timestamp: 99 }))
            )
        );
    }
    let mut p = GrpcProxy::new(GrpcSide::ClientTcp);
    assert_eq!(
        p.step(link(MessageType::Ping { timestamp: 99 })),
        step(false, WAIT)
    );
}

#[test]
fn messages_that_say_nothing_are_passed_over() {
    for side in ALL {
        let server = side != GrpcSide::ClientTcp;
        let mut p = GrpcProxy::new(side);
        assert_eq!(
            p.step(GrpcEvent::Link(Inbound::Message(TunnelMessage {
                message_type: None
            }))),
            step(server, WAIT)
        );
        assert_eq!(
            p.step(link(MessageType::Pong { timestamp: 1 })),
            step(server, WAIT)
        );
        assert_eq!(
            p.step(link(MessageType::Init {
                uuid: "T-1".to_string(),
                protocol: "tcp".to_string()
            })),
            step(server, WAIT)
        );
        assert!(!p.stopped);
    }
}

#[test]
fn a_relay_ends_once() {
    for side in ALL {
        let mut p = GrpcProxy::new(side);
        assert_eq!(
            p.step(link(MessageType::Close {
                reason: "bye".to_string()
            })),
            ended(side, true)
        );
        assert_eq!(
            p.step(GrpcEvent::Delivered(true)),
            step(false, GrpcAction::Finished)
        );
        let mut p = GrpcProxy::new(side);
        assert_eq!(
            p.step(GrpcEvent::Link(Inbound::Failed)),
            ended(side, false)
        );
        let mut p = GrpcProxy::new(side);
        assert_eq!(p.step(GrpcEvent::Delivered(false)), ended(side, false));
        let mut p = GrpcProxy::new(side);
        p.step(GrpcEvent::Link(Inbound::Ended));
        assert_eq!(p.step(GrpcEvent::Socket(None)), ended(side, false));
        let mut p = GrpcProxy::new(side);
        p.step(GrpcEvent::Socket(None));
        assert_eq!(p.step(GrpcEvent::Link(Inbound::Ended)), ended(side, false));
    }
}

#[test]
fn an_empty_read_ends_a_stream_but_not_a_datagram_socket() {
    for side in [GrpcSide::ServerTcp, GrpcSide::ClientTcp] {
        let mut p = GrpcProxy::new(side);
        assert_eq!(
            p.step(GrpcEvent::Socket(Some(vec![]))),
            ended(side, false)
        );
    }
    let mut p = GrpcProxy::new(GrpcSide::ServerUdp);
    assert_eq!(
        p.step(GrpcEvent::Socket(Some(vec![]))),
        step(
            true,
            GrpcAction::SendLink(message(MessageType::Data { payload: vec![] }))
        )
    );
}

#[test]
fn a_source_that_drops_out_comes_back_with_the_next_wait() {
    let mut p = GrpcProxy::new(GrpcSide::ServerTcp);
    assert_eq!(
        p.step(GrpcEvent::Link(Inbound::Ended)),
        step(
            false,
            GrpcAction::Wait {
                link: false,
                socket: true
            }
        )
    );
    p.step(GrpcEvent::Socket(Some(vec![1])));
    assert_eq!(p.step(GrpcEvent::Delivered(true)), step(false, WAIT));
}

#[test]
fn a_grpc_tunnel_carries_the_stream() {
    let chunks = vec![vec![9], vec![8, 7]];
    for (a, b) in [
        (GrpcSide::ClientTcp, GrpcSide::ServerTcp),
        (GrpcSide::ServerTcp, GrpcSide::ClientTcp),
    ] {
        let mut near = GrpcProxy::new(a);
        let mut far = GrpcProxy::new(b);
        let mut written: Vec<Vec<u8>> = Vec::new();
        for chunk in &chunks {
            let sent = match near.step(GrpcEvent::Socket(Some(chunk.clone()))).action {
                GrpcAction::SendLink(m) => m,
                other => panic!("{:?}", other),
            };
            match far
                .step(GrpcEvent::Link(Inbound::Message(sent)))
                .action
            {
                GrpcAction::WriteSocket(d) => written.push(d),
                other => panic!("{:?}", other),
            }
        }
        assert_eq!(written, chunks);
    }
}
