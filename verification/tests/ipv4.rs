use tcp_over_ws_rust::ipv4::reads_as_ipv4;

#[test]
fn addresses_are_read() {
    for text in ["0.0.0.0", "127.0.0.1", "255.255.255.255", "10.20.30.40", "1.22.199.249"] {
        assert!(reads_as_ipv4(text), "{}", text);
    }
}

#[test]
fn anything_else_is_no_address() {
    for text in [
        "",
        ".",
        "1",
        "1.2.3",
        "1.2.3.",
        ".1.2.3",
        "1..2.3",
        "1.2.3.4.",
        "1.2.3.4.5",
        "256.1.1.1",
        "1.1.1.999",
        "1.1.1.1000",
        "00.1.1.1",
        "01.1.1.1",
        "1.1.1.1 ",
        " 1.1.1.1",
        "+1.1.1.1",
        "1.1.1.a",
        "0x1.1.1.1",
        "\u{661}.1.1.1",
        "::1",
        "[::1]",
        "example.com",
    ] {
        assert!(!reads_as_ipv4(text), "{}", text);
    }
}
