use tcp_over_ws_rust::resolve::{fastest, Ip, Plan, Probe, ResolveError, ServerUrl};

const MILLI: u128 = 1_000_000;

fn url(s: &str) -> ServerUrl {
    match ServerUrl::new(s.to_string()) {
        Ok(u) => u,
        Err(e) => panic!("{:?}", e),
    }
}

fn probe(last: u8, latency: Option<u128>) -> Probe {
    Probe {
        ip: Ip::V4([10, 0, 0, last]),
        latency,
    }
}

#[test]
fn host_and_port_of_an_address() {
    let u = url("ws://your-server.com:8080");
    assert_eq!(u.host(), "your-server.com");
    assert_eq!(u.port(), 8080);
    assert_eq!(url("ws://example.com/path").port(), 80);
    assert_eq!(url("wss://example.com/path").port(), 443);
    assert_eq!(url("wss://example.com:80").port(), 80);
    assert_eq!(url("https://example.com").port(), 80);
    assert_eq!(url("ws://EXAMPLE.com").host(), "example.com");
    assert_eq!(url("ws://[::1]:9").host(), "[::1]");
    assert_eq!(url("mailto:a@b").host(), "");
}

#[test]
fn what_is_no_url_is_an_error() {
    match ServerUrl::new("no url".to_string()) {
        Err(e) => {
            assert_eq!(
                e,
                ResolveError::InvalidUrl("relative URL without a base".to_string())
            );
            assert_eq!(e.text(), "relative URL without a base");
        }
        Ok(_) => panic!("parsed"),
    }
}

#[test]
fn an_ip_address_is_kept() {
    for given in [
        "ws://10.0.0.1:8080",
        "ws://0.0.0.0",
        "wss://255.255.255.255/a",
        "foo://1.2.3.4/b",
        "ws://0x7f.1",
    ] {
        assert!(url(given).host_is_ipv4());
        assert_eq!(url(given).plan(), Plan::Keep(given.to_string()));
    }
}

#[test]
fn other_hosts_are_looked_up() {
    for (given, host, port) in [
        ("ws://example.com", "example.com", 80),
        ("wss://example.com", "example.com", 443),
        ("ws://[::1]:9", "[::1]", 9),
        ("foo://01.2.3.4", "01.2.3.4", 80),
        ("foo://256.2.3.4", "256.2.3.4", 80),
        ("foo://1.2.3", "1.2.3", 80),
        ("mailto:a@b", "", 80),
    ] {
        assert!(!url(given).host_is_ipv4());
        assert_eq!(
            url(given).plan(),
            Plan::Lookup {
                host: host.to_string(),
                port
            }
        );
    }
}

#[test]
fn a_resolved_address_is_kept() {
    let resolved = match url("ws://example.com:8080").best_address(&vec![probe(7, Some(1))]) {
        Ok(address) => address,
        Err(e) => panic!("{:?}", e),
    };
    assert_eq!(url(&resolved).plan(), Plan::Keep(resolved.clone()));
}

#[test]
fn the_fastest_probe_is_chosen() {
    assert_eq!(fastest(&vec![]), None);
    assert_eq!(fastest(&vec![probe(1, None)]), None);
    assert_eq!(
        fastest(&vec![
            probe(1, Some(30 * MILLI)),
            probe(2, None),
            probe(3, Some(20 * MILLI)),
            probe(4, Some(20 * MILLI)),
            probe(5, Some(25 * MILLI)),
        ]),
        Some(2)
    );
    assert_eq!(fastest(&vec![probe(1, Some(10_000 * MILLI))]), None);
    assert_eq!(fastest(&vec![probe(1, Some(10_000 * MILLI - 1))]), Some(0));
}

#[test]
fn the_host_gives_way_to_the_address() {
    let u = url("ws://example.com:8080/a?b");
    let probes = vec![probe(1, Some(9)), probe(2, Some(8))];
    assert_eq!(
        u.best_address(&probes),
        Ok("ws://10.0.0.2:8080/a?b".to_string())
    );
    assert_eq!(
        u.find_best_address(&probes),
        Some(Ok("ws://10.0.0.2:8080/a?b".to_string()))
    );
    let mut octets = [0u8; 16];
    octets[15] = 1;
    let v6 = Probe {
        ip: Ip::V6(octets),
        latency: Some(1),
    };
    assert_eq!(
        url("wss://example.com").best_address(&vec![v6]),
        Ok("wss://[::1]/".to_string())
    );
}

#[test]
fn no_answer_is_an_error() {
    let e = url("ws://example.com").best_address(&vec![probe(1, None)]);
    assert_eq!(
        e,
        Err(ResolveError::NoResponsiveIp {
            host: "example.com".to_string()
        })
    );
    match e {
        Err(e) => assert_eq!(
            e.text(),
            "Could not find any responsive IP for host: example.com"
        ),
        Ok(_) => panic!("resolved"),
    }
}

#[test]
fn an_address_without_a_place_for_a_host_is_an_error() {
    let u = url("mailto:a@b");
    assert_eq!(
        u.best_address(&vec![probe(1, Some(1))]),
        Err(ResolveError::SetIpHost)
    );
    assert_eq!(ResolveError::SetIpHost.text(), "Failed to set IP host");
}

#[test]
fn nothing_but_the_host_changes() {
    let probes = vec![Probe {
        ip: Ip::V4([255, 100, 10, 0]),
        latency: Some(1),
    }];
    let cases = [
        ("ws://u:p@example.com:9/x?y#z", "ws://u:p@255.100.10.0:9/x?y#z"),
        ("ws://example.com:80", "ws://255.100.10.0/"),
        ("ws://[2001:db8::1]:9/", "ws://255.100.10.0:9/"),
        ("file:///a", "file://255.100.10.0/a"),
        ("foo:/bar", "foo://255.100.10.0/bar"),
    ];
    for (given, expected) in cases {
        assert_eq!(
            url(given).best_address(&probes),
            Ok(expected.to_string())
        );
    }
}

#[test]
fn ipv6_hosts_are_bracketed() {
    let mut octets = [0u8; 16];
    octets[0] = 0x20;
    octets[1] = 0x01;
    octets[2] = 0x0d;
    octets[3] = 0xb8;
    octets[15] = 1;
    let probes = vec![Probe {
        ip: Ip::V6(octets),
        latency: Some(1),
    }];
    assert_eq!(
        url("ws://example.com:9").best_address(&probes),
        Ok("ws://[2001:db8::1]:9/".to_string())
    );
}

#[test]
fn an_address_of_ordinary_length_has_room() {
    let probes = vec![Probe {
        ip: Ip::V6([255; 16]),
        latency: Some(1),
    }];
    let host = "[ffff:ffff:ffff:ffff:ffff:ffff:ffff:ffff]";
    for (before, given, after) in [
        ("ws://", "a", "/"),
        ("ws://", "a", "/p?q"),
        ("ws://", "a", "/p#f"),
        ("ws://u@", "a", ":9/p?q#f"),
    ] {
        assert_eq!(
            url(&format!("{}{}{}", before, given, after)).find_best_address(&probes),
            Some(Ok(format!("{}{}{}", before, host, after)))
        );
    }
    assert_eq!(
        url("mailto:a@b").find_best_address(&probes),
        Some(Err(ResolveError::SetIpHost))
    );
    assert_eq!(
        url("ws://a").find_best_address(&vec![]),
        Some(Err(ResolveError::NoResponsiveIp {
            host: "a".to_string()
        }))
    );
}
