use tcp_over_ws_rust::tunnel_id::{new_tunnel_id, tunnel_id, tunnel_kind, TunnelKind};

#[test]
fn names_are_spelled_out() {
    assert_eq!(
        tunnel_id(TunnelKind::Tcp, 0xa1a2a3a4b1b2c1c2d1d2d3d4d5d6d7d8),
        "T-a1a2a3a4b1b2c1c2d1d2d3d4d5d6d7d8"
    );
    assert_eq!(
        tunnel_id(TunnelKind::Udp, 0x0f),
        "U-0000000000000000000000000000000f"
    );
    assert_eq!(
        tunnel_id(TunnelKind::Udp, u128::MAX),
        "U-ffffffffffffffffffffffffffffffff"
    );
}

#[test]
fn names_tell_their_kind() {
    assert_eq!(tunnel_kind(&tunnel_id(TunnelKind::Tcp, 7)), TunnelKind::Tcp);
    assert_eq!(tunnel_kind(&tunnel_id(TunnelKind::Udp, 7)), TunnelKind::Udp);
    assert_eq!(tunnel_kind("U"), TunnelKind::Udp);
    assert_eq!(tunnel_kind("u-1"), TunnelKind::Tcp);
    assert_eq!(tunnel_kind("anything"), TunnelKind::Tcp);
    assert_eq!(tunnel_kind(""), TunnelKind::Tcp);
}

#[test]
fn new_names_are_random_uuids() {
    for kind in [TunnelKind::Tcp, TunnelKind::Udp] {
        let id = new_tunnel_id(kind);
        let again = new_tunnel_id(kind);
        assert_ne!(id, again);
        assert_eq!(id.len(), 34);
        assert_eq!(tunnel_kind(&id), kind);
        let digits: Vec<char> = id.chars().skip(2).collect();
        assert!(digits
            .iter()
            .all(|c| c.is_ascii_digit() || ('a'..='f').contains(c)));
        assert_eq!(digits[12], '4');
        assert!(matches!(digits[16], '8' | '9' | 'a' | 'b'));
    }
}

#[test]
fn different_tunnels_have_different_names() {
    assert_ne!(tunnel_id(TunnelKind::Tcp, 1), tunnel_id(TunnelKind::Udp, 1));
    assert_ne!(tunnel_id(TunnelKind::Tcp, 1), tunnel_id(TunnelKind::Tcp, 2));
    assert_ne!(
        tunnel_id(TunnelKind::Tcp, 1 << 127),
        tunnel_id(TunnelKind::Tcp, 0)
    );
}
