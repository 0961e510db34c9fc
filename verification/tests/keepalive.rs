use yesgrok::keepalive::{keepalive_message, port_text};

#[test]
fn keepalive_for_the_fixed_identity() {
    assert_eq!(
        keepalive_message("128393847599", 8080),
        "Ping from agent 128393847599 on port 8080\n"
    );
}

#[test]
fn keepalive_for_port_zero() {
    assert_eq!(keepalive_message("a", 0), "Ping from agent a on port 0\n");
}

#[test]
fn keepalive_for_the_highest_port() {
    assert_eq!(keepalive_message("a", 65535), "Ping from agent a on port 65535\n");
}

#[test]
fn keepalive_with_an_empty_identity() {
    assert_eq!(keepalive_message("", 80), "Ping from agent  on port 80\n");
}

#[test]
fn keepalive_keeps_the_identity_verbatim() {
    let identity = "x y\t\u{e9}\"";
    let frame = keepalive_message(identity, 443);
    assert_eq!(frame, format!("Ping from agent {} on port {}\n", identity, 443));
    assert!(frame.contains(identity));
    assert!(frame.contains("443"));
    assert!(frame.ends_with('\n'));
}

#[test]
fn keepalive_is_the_same_each_time() {
    assert_eq!(keepalive_message("id", 3000), keepalive_message("id", 3000));
    assert_ne!(keepalive_message("id", 3000), keepalive_message("id", 3001));
    assert_ne!(keepalive_message("id", 3000), keepalive_message("ie", 3000));
}

#[test]
fn port_text_of_single_digits() {
    assert_eq!(port_text(0), "0");
    assert_eq!(port_text(7), "7");
    assert_eq!(port_text(9), "9");
}

#[test]
fn port_text_at_the_powers_of_ten() {
    assert_eq!(port_text(10), "10");
    assert_eq!(port_text(99), "99");
    assert_eq!(port_text(100), "100");
    assert_eq!(port_text(1000), "1000");
    assert_eq!(port_text(10000), "10000");
    assert_eq!(port_text(10001), "10001");
}

#[test]
fn port_text_of_every_port() {
    let mut port: u16 = 0;
    loop {
        assert_eq!(port_text(port), format!("{}", port));
        if port == u16::MAX {
            break;
        }
        port += 1;
    }
}
