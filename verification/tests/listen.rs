use bastion_tunnel::cli::names_target;
use bastion_tunnel::cli::parse_port;
use bastion_tunnel::cli::port_text;
use bastion_tunnel::cli::Local;
use bastion_tunnel::error::Error;
use bastion_tunnel::serve::Listener;

#[test]
fn port_numbers_are_read() {
    assert_eq!(parse_port("2222"), Some(2222));
    assert_eq!(parse_port("0"), Some(0));
    assert_eq!(parse_port("65535"), Some(65535));
    assert_eq!(parse_port("+22"), Some(22));
    assert_eq!(parse_port("00022"), Some(22));
    assert_eq!(parse_port("0000000000000000000000065535"), Some(65535));
}

#[test]
fn other_texts_are_no_port() {
    assert_eq!(parse_port(""), None);
    assert_eq!(parse_port("+"), None);
    assert_eq!(parse_port("65536"), None);
    assert_eq!(parse_port("99999999999999999999"), None);
    assert_eq!(parse_port("-1"), None);
    assert_eq!(parse_port("++1"), None);
    assert_eq!(parse_port("22a"), None);
    assert_eq!(parse_port(" 22"), None);
    assert_eq!(parse_port("2٢"), None);
    assert_eq!(parse_port("655351x"), None);
}

#[test]
fn parse_port_agrees_with_the_standard_parser() {
    let texts = ["1", "+1", "01", "65535", "65536", "", "+", "-0", "1 ", "a", "12345", "123456"];
    for text in texts {
        assert_eq!(parse_port(text), text.parse::<u16>().ok());
    }
}

#[test]
fn port_text_is_decimal() {
    assert_eq!(port_text(0), "0");
    assert_eq!(port_text(9), "9");
    assert_eq!(port_text(10), "10");
    assert_eq!(port_text(22), "22");
    assert_eq!(port_text(3389), "3389");
    assert_eq!(port_text(65535), "65535");
}

#[test]
fn port_text_reads_back() {
    let ports: [u16; 7] = [0, 1, 22, 100, 2222, 40960, 65535];
    for port in ports {
        assert_eq!(parse_port(&port_text(port)), Some(port));
    }
}

#[test]
fn target_with_a_slash_is_a_socket_path() {
    match Local::parse("/tmp/tunnel.sock".to_string(), true) {
        Ok(Local::Unix(path)) => assert_eq!(path, "/tmp/tunnel.sock"),
        _ => panic!("a path was expected"),
    }
}

#[test]
fn socket_path_without_support_is_a_bind_error() {
    assert!(matches!(Local::parse("/tmp/tunnel.sock".to_string(), false), Err(Error::Bind)));
}

#[test]
fn other_targets_are_ports() {
    assert!(matches!(Local::parse("2222".to_string(), true), Ok(Local::Port(2222))));
    assert!(matches!(Local::parse("2222".to_string(), false), Ok(Local::Port(2222))));
    assert!(matches!(Local::parse("0".to_string(), true), Ok(Local::Port(0))));
    assert!(matches!(Local::parse("65535".to_string(), true), Ok(Local::Port(65535))));
}

#[test]
fn paths_and_ports_name_a_target() {
    assert!(names_target("2222"));
    assert!(names_target("65535"));
    assert!(names_target("+22"));
    assert!(names_target("/tmp/tunnel.sock"));
    assert!(names_target("/"));
}

#[test]
fn texts_that_are_no_port_name_no_target() {
    assert!(!names_target("65536"));
    assert!(!names_target("70000"));
    assert!(!names_target(""));
    assert!(!names_target("-1"));
    assert!(!names_target("ssh"));
    assert!(!names_target("./s.sock"));
    assert!(!names_target("tunnel.sock"));
    assert!(!names_target(" 22"));
}

#[test]
fn port_binds_on_loopback() {
    match Listener::bind(Local::Port(2222), false) {
        Ok(Listener::Tcp { address, port }) => {
            assert_eq!(address, (127, 0, 0, 1));
            assert_eq!(port, 2222);
        }
        _ => panic!("a network listener was expected"),
    }
}

#[test]
fn path_binds_a_local_socket_where_supported() {
    match Listener::bind(Local::Unix("/tmp/a.sock".to_string()), true) {
        Ok(Listener::Unix { path }) => assert_eq!(path, "/tmp/a.sock"),
        _ => panic!("a local socket was expected"),
    }
    assert!(matches!(
        Listener::bind(Local::Unix("/tmp/a.sock".to_string()), false),
        Err(Error::Bind)
    ));
}

#[test]
fn only_a_local_socket_leaves_a_path_to_remove() {
    let network = Listener::bind(Local::Port(2222), true).unwrap();
    let socket = Listener::bind(Local::Unix("/tmp/a.sock".to_string()), true).unwrap();
    assert_eq!(network.cleanup(), None);
    assert_eq!(socket.cleanup(), Some(&"/tmp/a.sock".to_string()));
}
