use tcp_over_ws_rust::grpc_proxy::Inbound;
use tcp_over_ws_rust::grpc_udp_client::{GrpcClientUdp, GrpcUdpAction, GrpcUdpEvent};
use tcp_over_ws_rust::message::{data_message, MessageType, TunnelMessage};

const WAIT: GrpcUdpAction<u16> = GrpcUdpAction::Wait {
    local: true,
    link: true,
};

fn link(t: MessageType) -> GrpcUdpEvent<u16> {
    GrpcUdpEvent::Link(Inbound::Message(TunnelMessage {
        message_type: Some(t),
    }))
}

fn data(d: u8) -> GrpcUdpEvent<u16> {
    link(MessageType::Data { payload: vec![d] })
}

fn packet(d: u8, peer: u16) -> GrpcUdpEvent<u16> {
    GrpcUdpEvent::Local(Some((vec![d], peer)))
}

#[test]
fn packets_are_sent_and_replies_go_to_the_latest_sender() {
    let mut c: GrpcClientUdp<u16> = GrpcClientUdp::new();
    assert_eq!(c.step(data(1)), WAIT);
    assert_eq!(
        c.step(packet(2, 7)),
        GrpcUdpAction::SendLink(data_message(vec![2]))
    );
    assert_eq!(c.step(GrpcUdpEvent::Sent(true)), WAIT);
    assert_eq!(c.step(data(3)), GrpcUdpAction::SendTo(vec![3], 7));
    assert_eq!(c.step(GrpcUdpEvent::Replied(false)), WAIT);
    c.step(packet(4, 8));
    c.step(GrpcUdpEvent::Sent(true));
    assert_eq!(c.step(data(5)), GrpcUdpAction::SendTo(vec![5], 8));
    assert_eq!(c.step(GrpcUdpEvent::Replied(true)), WAIT);
}

#[test]
fn what_ends_a_grpc_udp_client() {
    let mut c: GrpcClientUdp<u16> = GrpcClientUdp::new();
    assert_eq!(c.step(GrpcUdpEvent::Sent(false)), GrpcUdpAction::Finish);
    assert_eq!(c.step(packet(1, 7)), GrpcUdpAction::Finished);

    let mut c: GrpcClientUdp<u16> = GrpcClientUdp::new();
    assert_eq!(
        c.step(GrpcUdpEvent::Link(Inbound::Failed)),
        GrpcUdpAction::Finish
    );

    let mut c: GrpcClientUdp<u16> = GrpcClientUdp::new();
    assert_eq!(
        c.step(link(MessageType::Close {
            reason: "x".to_string()
        })),
        GrpcUdpAction::Finish
    );
}

#[test]
fn a_client_without_sources_stalls() {
    let mut c: GrpcClientUdp<u16> = GrpcClientUdp::new();
    assert_eq!(
        c.step(GrpcUdpEvent::Link(Inbound::Ended)),
        GrpcUdpAction::Wait {
            local: true,
            link: false
        }
    );
    assert_eq!(c.step(GrpcUdpEvent::Local(None)), GrpcUdpAction::Stalled);
    assert_eq!(c.step(packet(1, 7)), GrpcUdpAction::Finished);

    let mut c: GrpcClientUdp<u16> = GrpcClientUdp::new();
    assert_eq!(
        c.step(GrpcUdpEvent::Local(None)),
        GrpcUdpAction::Wait {
            local: false,
            link: true
        }
    );
    assert_eq!(
        c.step(GrpcUdpEvent::Link(Inbound::Ended)),
        GrpcUdpAction::Stalled
    );

    let mut c: GrpcClientUdp<u16> = GrpcClientUdp::new();
    c.step(GrpcUdpEvent::Link(Inbound::Ended));
    c.step(packet(1, 7));
    assert_eq!(c.step(GrpcUdpEvent::Sent(true)), WAIT);
}

#[test]
fn a_grpc_udp_client_passes_over_the_rest() {
    let mut c: GrpcClientUdp<u16> = GrpcClientUdp::new();
    assert_eq!(c.step(link(MessageType::Ping { timestamp: 1 })), WAIT);
    assert_eq!(c.step(link(MessageType::Pong { timestamp: 1 })), WAIT);
    assert_eq!(
        c.step(GrpcUdpEvent::Link(Inbound::Message(TunnelMessage {
            message_type: None
        }))),
        WAIT
    );
    assert_eq!(c, GrpcClientUdp::new());
}
