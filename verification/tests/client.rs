use reverse_tunnel::protocol::{
    accept_registration_ack, frame_message, not_found_response, on_control_event, registration_ack,
    registration_request, ControlAction, ControlEvent, ControlMessage, ProtocolError,
};
use reverse_tunnel::text::{control_address, data_address, local_address, public_url, push_decimal};
use reverse_tunnel::tunnel::{
    after_session, continue_after_wait, retry_after_wait, session_step, ConnectAttempts, RetryStep,
    SessionStep, TunnelState,
};
use tokio_util::sync::CancellationToken;

#[test]
fn addresses_name_the_ports() {
    assert_eq!(control_address("tunnel.example.com"), "tunnel.example.com:4000");
    assert_eq!(data_address("10.0.0.2"), "10.0.0.2:4001");
    assert_eq!(local_address(3000), "127.0.0.1:3000");
    assert_eq!(local_address(0), "127.0.0.1:0");
    assert_eq!(local_address(65535), "127.0.0.1:65535");
    assert_eq!(public_url("my-app"), "http://localhost:8080/my-app");
}

#[test]
fn decimal_numerals() {
    for n in [0u16, 7, 10, 99, 100, 4001, 8080, 65535] {
        let mut s = String::from("#");
        push_decimal(&mut s, n);
        assert_eq!(s, format!("#{}", n));
    }
}

#[test]
fn registration_handshake_gives_public_url() {
    let request = registration_request("blog");
    assert_eq!(request, ControlMessage::Register { subdomain: "blog".to_string() });
    let ack = registration_ack("blog".to_string());
    assert_eq!(accept_registration_ack(ack), Ok("http://localhost:8080/blog".to_string()));
}

#[test]
fn registration_answer_must_be_ack() {
    assert_eq!(
        accept_registration_ack(ControlMessage::Pong),
        Err(ProtocolError::UnexpectedRegistrationResponse)
    );
    assert_eq!(
        ProtocolError::UnexpectedRegistrationResponse.message(),
        "Unexpected registration response"
    );
    assert_eq!(ProtocolError::ConnectionClosed.message(), "Connection closed");
}

#[test]
fn control_events_decide_the_next_step() {
    let open = on_control_event(ControlEvent::Received(Some(ControlMessage::NewConnection {
        tunnel_id: "abc".to_string(),
    })));
    assert_eq!(open, ControlAction::OpenTunnel { tunnel_id: "abc".to_string() });
    assert_eq!(on_control_event(ControlEvent::Received(Some(ControlMessage::Ping))), ControlAction::Ignore);
    assert_eq!(on_control_event(ControlEvent::Received(None)), ControlAction::Ignore);
    assert_eq!(on_control_event(ControlEvent::Closed), ControlAction::Stop);
    assert_eq!(on_control_event(ControlEvent::ReadFailed), ControlAction::Stop);
    assert_eq!(on_control_event(ControlEvent::Cancelled), ControlAction::Stop);
}

#[test]
fn frames_end_with_newline() {
    assert_eq!(frame_message(b"{\"type\":\"Ping\"}".to_vec()), b"{\"type\":\"Ping\"}\n".to_vec());
    assert_eq!(frame_message(Vec::new()), vec![b'\n']);
}

#[test]
fn not_found_answer_bytes() {
    assert_eq!(
        not_found_response(),
        b"HTTP/1.1 404 Not Found\r\nContent-Length: 13\r\n\r\nNo such tunnel".to_vec()
    );
}

#[test]
fn tunnel_start_stop_status() {
    let mut tunnel = TunnelState::new();
    let status = tunnel.get_status();
    assert_eq!(status.status, "Offline");
    assert_eq!(status.public_url, None);

    let started = tunnel.start_tunnel().unwrap();
    assert_eq!(started.message, "Tunnel starting...");
    assert!(!started.token.is_cancelled());
    assert_eq!(tunnel.get_status().status, "Online");
    assert_eq!(tunnel.start_tunnel().err(), Some("Tunnel is already running".to_string()));

    tunnel.set_public_url("http://localhost:8080/x".to_string());
    assert_eq!(tunnel.get_status().public_url, Some("http://localhost:8080/x".to_string()));

    assert_eq!(tunnel.stop_tunnel(), Ok(()));
    assert!(started.token.is_cancelled());
    let status = tunnel.get_status();
    assert_eq!(status.status, "Offline");
    assert_eq!(status.public_url, None);
    assert_eq!(tunnel.stop_tunnel(), Err("Tunnel is not running".to_string()));
}

#[test]
fn connect_gives_up_on_third_failure() {
    let mut attempts = ConnectAttempts::new();
    assert_eq!(attempts.on_failure(), RetryStep::RetryAfter { attempt: 1, delay_secs: 2 });
    assert_eq!(attempts.on_failure(), RetryStep::RetryAfter { attempt: 2, delay_secs: 2 });
    assert_eq!(attempts.on_failure(), RetryStep::GiveUp);
    assert_eq!(attempts.on_failure(), RetryStep::GiveUp);
}

#[test]
fn session_end_reconnects_unless_stopped() {
    assert_eq!(session_step(true), SessionStep::Stop);
    assert_eq!(session_step(false), SessionStep::ReconnectAfter { delay_secs: 5 });
    let token = CancellationToken::new();
    assert_eq!(after_session(&token), SessionStep::ReconnectAfter { delay_secs: 5 });
    assert!(continue_after_wait(&token));
    token.cancel();
    assert_eq!(after_session(&token), SessionStep::Stop);
    assert!(!continue_after_wait(&token));
    assert!(retry_after_wait(false));
}

#[test]
fn refused_start_keeps_the_task_token() {
    let mut tunnel = TunnelState::new();
    let started = tunnel.start_tunnel().unwrap();
    assert!(tunnel.start_tunnel().is_err());
    tunnel.set_public_url("http://localhost:8080/a".to_string());
    assert!(tunnel.start_tunnel().is_err());
    assert_eq!(tunnel.stop_tunnel(), Ok(()));
    assert!(started.token.is_cancelled());

    let again = tunnel.start_tunnel().unwrap();
    assert!(!again.token.is_cancelled());
    assert_eq!(tunnel.get_status().status, "Online");
    assert_eq!(tunnel.get_status().public_url, None);
    assert_eq!(tunnel.stop_tunnel(), Ok(()));
    assert!(again.token.is_cancelled());
}
