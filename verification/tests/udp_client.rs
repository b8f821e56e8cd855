use tcp_over_ws_rust::message::Message;
use tcp_over_ws_rust::udp_client::{reader_passes, ClientUdp, UdpAction, UdpEvent};

const WAIT: Option<UdpAction<u16>> = Some(UdpAction::Wait { local: true });

fn client() -> ClientUdp<u16> {
    ClientUdp::new("U-1".to_string())
}

fn packet(d: u8, peer: u16) -> UdpEvent<u16> {
    UdpEvent::Local(Some((vec![d], peer)))
}

fn forward(d: u8, start_reader: bool) -> Option<UdpAction<u16>> {
    Some(UdpAction::Forward {
        message: Message::Binary(vec![d]),
        start_reader,
    })
}

#[test]
fn the_first_packet_opens_the_websocket_and_the_name_goes_first() {
    let mut c = client();
    assert_eq!(c.step(packet(1, 7)), Some(UdpAction::Connect));
    assert_eq!(
        c.step(UdpEvent::Done(true)),
        Some(UdpAction::Greet(Message::Text("U-1".to_string())))
    );
    assert_eq!(c.step(UdpEvent::Done(true)), forward(1, true));
    assert_eq!(c.step(UdpEvent::Done(true)), WAIT);
    assert_eq!(c.step(packet(2, 7)), forward(2, false));
    assert_eq!(c.step(UdpEvent::Done(true)), WAIT);
}

#[test]
fn a_packet_without_a_connection_is_dropped() {
    let mut c = client();
    assert_eq!(c.step(packet(1, 7)), Some(UdpAction::Connect));
    assert_eq!(c.step(UdpEvent::Done(false)), WAIT);
    assert_eq!(c.step(packet(2, 7)), Some(UdpAction::Connect));
    c.step(UdpEvent::Done(true));
    assert_eq!(c.step(UdpEvent::Done(true)), forward(2, true));
}

#[test]
fn a_failed_send_leads_to_a_new_connection() {
    let mut c = client();
    c.step(packet(1, 7));
    c.step(UdpEvent::Done(true));
    c.step(UdpEvent::Done(true));
    assert_eq!(c.step(UdpEvent::Done(false)), WAIT);
    assert_eq!(c.step(packet(2, 7)), Some(UdpAction::Connect));
    assert_eq!(
        c.step(UdpEvent::Done(true)),
        Some(UdpAction::Greet(Message::Text("U-1".to_string())))
    );
    assert_eq!(c.step(UdpEvent::Done(true)), forward(2, true));
}

#[test]
fn a_failed_greeting_ends_the_client() {
    let mut c = client();
    c.step(packet(1, 7));
    c.step(UdpEvent::Done(true));
    assert_eq!(c.step(UdpEvent::Done(false)), Some(UdpAction::Fail));
    assert_eq!(c.step(packet(2, 7)), None);
    assert_eq!(c.step(UdpEvent::Done(true)), None);
    assert_eq!(c.step(UdpEvent::Reply(vec![1])), None);
}

#[test]
fn udp_replies_go_to_the_latest_sender() {
    let mut c = client();
    assert_eq!(c.step(UdpEvent::Reply(vec![9])), WAIT);
    c.step(packet(1, 7));
    c.step(UdpEvent::Done(false));
    assert_eq!(
        c.step(UdpEvent::Reply(vec![9])),
        Some(UdpAction::SendTo(vec![9], 7))
    );
    assert_eq!(c.step(UdpEvent::Done(false)), WAIT);
    c.step(packet(2, 8));
    c.step(UdpEvent::Done(false));
    assert_eq!(
        c.step(UdpEvent::Reply(vec![5])),
        Some(UdpAction::SendTo(vec![5], 8))
    );
}

#[test]
fn a_failed_read_leaves_the_local_socket_out_of_the_wait() {
    let mut c = client();
    assert_eq!(
        c.step(UdpEvent::Local(None)),
        Some(UdpAction::Wait { local: false })
    );
    assert_eq!(c.step(UdpEvent::Reply(vec![1])), WAIT);
}

#[test]
fn unexpected_events_change_nothing() {
    let mut c = client();
    assert_eq!(c.step(UdpEvent::Done(true)), None);
    assert_eq!(c.step(packet(1, 7)), Some(UdpAction::Connect));
    assert_eq!(c.step(packet(2, 8)), None);
    assert_eq!(c.step(UdpEvent::Reply(vec![1])), None);
    c.step(UdpEvent::Done(true));
    assert_eq!(c.step(UdpEvent::Done(true)), forward(1, true));
}

#[test]
fn a_reader_passes_binary_messages_only() {
    assert_eq!(
        reader_passes(Some(Message::Binary(vec![1, 2]))),
        Some(vec![1, 2])
    );
    assert_eq!(reader_passes(Some(Message::Text("a".to_string()))), None);
    assert_eq!(reader_passes(Some(Message::Ping(vec![]))), None);
    assert_eq!(reader_passes(Some(Message::Pong(vec![]))), None);
    assert_eq!(reader_passes(Some(Message::Close)), None);
    assert_eq!(reader_passes(Some(Message::Frame)), None);
    assert_eq!(reader_passes(None), None);
}
