use tcp_over_ws_rust::message::Message;
use tcp_over_ws_rust::tunnel_id::TunnelKind;
use tcp_over_ws_rust::ws_proxy::{WsAction, WsEvent, WsProxy, WsStep};

const WAIT: WsAction = WsAction::Wait {
    link: true,
    socket: true,
};

fn step(touch: bool, action: WsAction) -> WsStep {
    WsStep {
        touch,
        action,
        remove: false,
    }
}

fn ended(touch: bool) -> WsStep {
    WsStep {
        touch,
        action: WsAction::CloseLink,
        remove: true,
    }
}

fn finished() -> WsStep {
    step(false, WsAction::Finished)
}

fn link(m: Message) -> WsEvent {
    WsEvent::Link(Some(m))
}

#[test]
fn data_passes_both_ways() {
    for kind in [TunnelKind::Tcp, TunnelKind::Udp] {
        let mut p = WsProxy::new(kind);
        assert_eq!(
            p.step(link(Message::Binary(vec![1, 2]))),
            step(true, WsAction::WriteSocket(vec![1, 2]))
        );
        assert_eq!(p.step(WsEvent::Delivered(true)), step(false, WAIT));
        assert_eq!(
            p.step(WsEvent::Socket(Some(vec![3]))),
            step(true, WsAction::SendLink(Message::Binary(vec![3])))
        );
        assert_eq!(p.step(WsEvent::Delivered(true)), step(false, WAIT));
        assert!(!p.stopped);
    }
}

#[test]
fn a_tcp_relay_pings_and_answers_pings() {
    let mut p = WsProxy::new(TunnelKind::Tcp);
    assert_eq!(
        p.step(WsEvent::PingDue),
        step(false, WsAction::SendLink(Message::Ping(vec![])))
    );
    assert_eq!(p.step(WsEvent::Delivered(true)), step(false, WAIT));
    assert_eq!(
        p.step(link(Message::Ping(vec![7, 8]))),
        step(true, WsAction::SendLink(Message::Pong(vec![7, 8])))
    );
}

#[test]
fn a_udp_relay_ignores_pings_and_close() {
    let mut p = WsProxy::new(TunnelKind::Udp);
    assert_eq!(p.step(link(Message::Ping(vec![7]))), step(true, WAIT));
    assert_eq!(p.step(link(Message::Close)), step(true, WAIT));
    assert_eq!(p.step(WsEvent::PingDue), step(false, WAIT));
    assert!(!p.stopped);
}

#[test]
fn other_messages_are_activity_only() {
    for kind in [TunnelKind::Tcp, TunnelKind::Udp] {
        let mut p = WsProxy::new(kind);
        assert_eq!(p.step(link(Message::Text("x".to_string()))), step(true, WAIT));
        assert_eq!(p.step(link(Message::Pong(vec![1]))), step(true, WAIT));
        assert_eq!(p.step(link(Message::Frame)), step(true, WAIT));
    }
}

#[test]
fn a_tcp_relay_ends_on_close_end_of_stream_and_failure() {
    let mut p = WsProxy::new(TunnelKind::Tcp);
    assert_eq!(p.step(link(Message::Close)), ended(true));
    assert_eq!(p.step(link(Message::Binary(vec![1]))), finished());
    assert_eq!(p.step(WsEvent::Socket(Some(vec![1]))), finished());

    let mut p = WsProxy::new(TunnelKind::Tcp);
    assert_eq!(p.step(WsEvent::Socket(Some(vec![]))), ended(false));
    assert_eq!(p.step(WsEvent::Delivered(false)), finished());

    let mut p = WsProxy::new(TunnelKind::Tcp);
    p.step(link(Message::Binary(vec![1])));
    assert_eq!(p.step(WsEvent::Delivered(false)), ended(false));
}

#[test]
fn an_empty_datagram_is_data() {
    let mut p = WsProxy::new(TunnelKind::Udp);
    assert_eq!(
        p.step(WsEvent::Socket(Some(vec![]))),
        step(true, WsAction::SendLink(Message::Binary(vec![])))
    );
}

#[test]
fn a_tcp_relay_without_sources_waits_for_its_timer() {
    let mut p = WsProxy::new(TunnelKind::Tcp);
    assert_eq!(
        p.step(WsEvent::Link(None)),
        step(
            false,
            WsAction::Wait {
                link: false,
                socket: true
            }
        )
    );
    assert_eq!(
        p.step(WsEvent::Socket(None)),
        step(
            false,
            WsAction::Wait {
                link: false,
                socket: false
            }
        )
    );
    assert_eq!(
        p.step(WsEvent::PingDue),
        step(false, WsAction::SendLink(Message::Ping(vec![])))
    );
    assert_eq!(p.step(WsEvent::Delivered(false)), ended(false));
}

#[test]
fn a_udp_relay_without_sources_ends() {
    let mut p = WsProxy::new(TunnelKind::Udp);
    assert_eq!(
        p.step(WsEvent::Socket(None)),
        step(
            false,
            WsAction::Wait {
                link: true,
                socket: false
            }
        )
    );
    assert_eq!(p.step(WsEvent::Link(None)), ended(false));

    let mut p = WsProxy::new(TunnelKind::Udp);
    p.step(WsEvent::Link(None));
    p.step(WsEvent::Socket(Some(vec![1])));
    assert_eq!(p.step(WsEvent::Delivered(true)), step(false, WAIT));
    assert_eq!(
        p.step(WsEvent::Socket(None)),
        step(
            false,
            WsAction::Wait {
                link: true,
                socket: false
            }
        )
    );
}

#[test]
fn what_one_end_reads_the_other_writes() {
    let chunks = vec![vec![1, 2, 3], vec![4], vec![5, 6]];
    let mut near = WsProxy::new(TunnelKind::Tcp);
    let mut far = WsProxy::new(TunnelKind::Tcp);
    let mut written: Vec<Vec<u8>> = Vec::new();
    for chunk in &chunks {
        let sent = match near.step(WsEvent::Socket(Some(chunk.clone()))).action {
            WsAction::SendLink(m) => m,
            other => panic!("{:?}", other),
        };
        near.step(WsEvent::Delivered(true));
        match far.step(WsEvent::Link(Some(sent))).action {
            WsAction::WriteSocket(d) => written.push(d),
            other => panic!("{:?}", other),
        }
        far.step(WsEvent::Delivered(true));
    }
    assert_eq!(written, chunks);
}

#[test]
fn each_tick_sends_one_keepalive() {
    let keepalive = WsAction::SendLink(Message::Ping(vec![]));
    let mut p = WsProxy::new(TunnelKind::Tcp);
    let mut sent = 0;
    for _ in 0..4 {
        if p.step(WsEvent::PingDue).action == keepalive {
            sent += 1;
        }
        for event in [
            WsEvent::Delivered(true),
            link(Message::Pong(vec![])),
            WsEvent::Link(None),
        ] {
            assert_ne!(p.step(event).action, keepalive);
        }
    }
    assert_eq!(sent, 4);
    p.step(link(Message::Close));
    assert_eq!(p.step(WsEvent::PingDue), finished());
}
