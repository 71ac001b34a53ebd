use reverse_tunnel::http::{char_is_whitespace, extract_subdomain};
use reverse_tunnel::protocol::{connection_ack, ControlMessage, ProtocolError};
use reverse_tunnel::registry::{DataRoute, PublicRoute, ServerState};

#[test]
fn subdomain_is_first_path_segment() {
    assert_eq!(extract_subdomain("GET /foo HTTP/1.1\r\nHost: x\r\n\r\n"), Some("foo"));
    assert_eq!(extract_subdomain("GET /foo/bar/baz HTTP/1.1"), Some("foo"));
    assert_eq!(extract_subdomain("GET /foo"), Some("foo"));
    assert_eq!(extract_subdomain("GET /foo\tbar"), Some("foo"));
}

#[test]
fn subdomain_skips_leading_slashes() {
    assert_eq!(extract_subdomain("GET ///app/x HTTP/1.1"), Some("app"));
}

#[test]
fn subdomain_defaults_without_a_path() {
    assert_eq!(extract_subdomain("GET / HTTP/1.1\r\nHost: x"), Some("default"));
    assert_eq!(extract_subdomain(""), Some("default"));
    assert_eq!(extract_subdomain("POST /foo HTTP/1.1"), Some("default"));
    assert_eq!(extract_subdomain("get /foo HTTP/1.1"), Some("default"));
    assert_eq!(extract_subdomain("GET ///  HTTP/1.1"), Some("default"));
}

#[test]
fn subdomain_comes_from_a_later_line() {
    assert_eq!(extract_subdomain("GET / HTTP/1.1\nGET /later HTTP/1.1"), Some("later"));
    assert_eq!(extract_subdomain("Host: a\r\nGET /second\r\n"), Some("second"));
}

#[test]
fn subdomain_stops_at_unicode_whitespace() {
    assert_eq!(extract_subdomain("GET /caf\u{e9}\u{a0}x"), Some("caf\u{e9}"));
    assert_eq!(extract_subdomain("GET /\u{3000}x"), Some("default"));
}

#[test]
fn whitespace_matches_std() {
    for c in ['\t', '\n', '\x0b', '\x0c', '\r', ' ', '\u{85}', '\u{a0}', '\u{1680}', '\u{2000}',
        '\u{200a}', '\u{2028}', '\u{2029}', '\u{202f}', '\u{205f}', '\u{3000}', 'a', '/', '\u{200b}',
        '\u{180e}', '\x1f', '\u{feff}']
    {
        assert_eq!(char_is_whitespace(c), c.is_whitespace(), "{:?}", c);
    }
}

fn register(state: &mut ServerState, subdomain: &str, client: u64) {
    let msg = ControlMessage::Register { subdomain: subdomain.to_string() };
    let reg = state.register_client(msg, client).unwrap();
    assert_eq!(reg.subdomain, subdomain);
}

#[test]
fn registration_answers_with_public_url() {
    let mut state = ServerState::new();
    let reg = state
        .register_client(ControlMessage::Register { subdomain: "app".to_string() }, 7)
        .unwrap();
    assert_eq!(
        reg.ack,
        ControlMessage::RegisterAck {
            subdomain: "app".to_string(),
            public_url: "http://localhost:8080/app".to_string()
        }
    );
    assert_eq!(state.client_of("app"), Some(7));
    assert_eq!(state.client_of("other"), None);
}

#[test]
fn registration_refuses_other_messages() {
    let mut state = ServerState::new();
    let res = state.register_client(ControlMessage::Ping, 1);
    assert!(matches!(res, Err(ProtocolError::ExpectedRegister)));
    assert_eq!(ProtocolError::ExpectedRegister.message(), "Expected Register message");
}

#[test]
fn later_registration_replaces_earlier() {
    let mut state = ServerState::new();
    register(&mut state, "app", 1);
    register(&mut state, "app", 2);
    assert_eq!(state.client_of("app"), Some(2));
}

#[test]
fn routed_connection_is_claimed_once() {
    let mut state = ServerState::new();
    register(&mut state, "app", 3);
    let route = state.route_public_connection_as("GET /app/index.html HTTP/1.1\r\n", 11, "t-1".to_string());
    match route {
        PublicRoute::Notify { subdomain, client, tunnel_id, message } => {
            assert_eq!(subdomain, "app");
            assert_eq!(client, 3);
            assert_eq!(tunnel_id, "t-1");
            assert_eq!(message, ControlMessage::NewConnection { tunnel_id: "t-1".to_string() });
        }
        other => panic!("unexpected route {:?}", other),
    }
    let first = state.claim_tunnel(connection_ack("t-1")).unwrap();
    assert_eq!(first, DataRoute::Bridge { tunnel_id: "t-1".to_string(), conn: 11 });
    let second = state.claim_tunnel(connection_ack("t-1")).unwrap();
    assert_eq!(second, DataRoute::Unknown { tunnel_id: "t-1".to_string() });
}

#[test]
fn unknown_subdomain_finds_no_tunnel() {
    let mut state = ServerState::new();
    register(&mut state, "app", 3);
    let route = state.route_public_connection("GET /nope HTTP/1.1", 5);
    match route {
        PublicRoute::NoSuchTunnel { subdomain } => assert_eq!(subdomain, "nope"),
        other => panic!("unexpected route {:?}", other),
    }
    let claim = state.claim_tunnel(connection_ack("anything")).unwrap();
    assert_eq!(claim, DataRoute::Unknown { tunnel_id: "anything".to_string() });
}

#[test]
fn request_without_path_goes_to_default() {
    let mut state = ServerState::new();
    register(&mut state, "default", 9);
    let route = state.route_public_connection_as("GET / HTTP/1.1", 1, "t".to_string());
    assert!(matches!(route, PublicRoute::Notify { client: 9, .. }));
}

#[test]
fn fresh_tunnel_ids_are_uuids() {
    let mut state = ServerState::new();
    register(&mut state, "app", 4);
    let mut ids = Vec::new();
    for conn in 0..2 {
        match state.route_public_connection("GET /app HTTP/1.1", conn) {
            PublicRoute::Notify { tunnel_id, client, .. } => {
                assert_eq!(client, 4);
                let chars: Vec<char> = tunnel_id.chars().collect();
                assert_eq!(chars.len(), 36);
                for (i, c) in chars.iter().enumerate() {
                    if i == 8 || i == 13 || i == 18 || i == 23 {
                        assert_eq!(*c, '-');
                    } else {
                        assert!(c.is_ascii_digit() || ('a'..='f').contains(c));
                    }
                }
                assert_eq!(chars[14], '4');
                assert!(['8', '9', 'a', 'b'].contains(&chars[19]));
                ids.push(tunnel_id);
            }
            other => panic!("unexpected route {:?}", other),
        }
    }
    assert_ne!(ids[0], ids[1]);
    assert!(matches!(state.claim_tunnel(connection_ack(&ids[1])).unwrap(), DataRoute::Bridge { conn: 1, .. }));
    assert!(matches!(state.claim_tunnel(connection_ack(&ids[0])).unwrap(), DataRoute::Bridge { conn: 0, .. }));
}

#[test]
fn abandoned_tunnel_stops_waiting() {
    let mut state = ServerState::new();
    register(&mut state, "app", 4);
    state.route_public_connection_as("GET /app HTTP/1.1", 8, "t-9".to_string());
    assert_eq!(state.abandon_tunnel("t-9"), Some(8));
    assert_eq!(state.abandon_tunnel("t-9"), None);
    let claim = state.claim_tunnel(connection_ack("t-9")).unwrap();
    assert_eq!(claim, DataRoute::Unknown { tunnel_id: "t-9".to_string() });
}

#[test]
fn departed_client_finds_no_tunnel() {
    let mut state = ServerState::new();
    register(&mut state, "app", 4);
    assert_eq!(state.unregister_client("app"), Some(4));
    assert_eq!(state.unregister_client("app"), None);
    let route = state.route_public_connection("GET /app HTTP/1.1", 2);
    assert!(matches!(route, PublicRoute::NoSuchTunnel { .. }));
}

#[test]
fn data_connection_must_open_with_ack() {
    let mut state = ServerState::new();
    let res = state.claim_tunnel(ControlMessage::Register { subdomain: "x".to_string() });
    assert!(matches!(res, Err(ProtocolError::ExpectedConnectionAck)));
    assert_eq!(ProtocolError::ExpectedConnectionAck.message(), "Expected ConnectionAck message");
}

#[test]
fn leading_other_line_keeps_the_key() {
    assert_eq!(extract_subdomain("PUT /x\nGET /key HTTP/1.1"), Some("key"));
    assert_eq!(extract_subdomain("GET x\nGET /key/y"), Some("key"));
}
