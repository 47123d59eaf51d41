use compio_wt::client::{client_setup, connect_failure, open_bi_failure, ServerVerification};
use compio_wt::error::{ClientError, SessionError};
use compio_wt::ALPN;

#[test]
fn alpn_is_h3() {
    assert_eq!(ALPN, "h3");
}

#[test]
fn setup_for_a_verified_ipv4_connection() {
    let s = client_setup(false, false, false, Some("example.com"));
    assert_eq!(s.verification, ServerVerification::WebpkiRoots);
    assert!(!s.use_given_tls);
    assert_eq!(s.keep_alive_secs, 1);
    assert_eq!(s.max_idle_timeout_secs, 60);
    assert_eq!(s.initial_mtu, 1200);
    assert_eq!(s.bind_addr, "0.0.0.0:0");
    assert_eq!(s.server_name, "example.com");
}

#[test]
fn setup_for_an_insecure_ipv6_connection_without_host() {
    let s = client_setup(true, true, true, None);
    assert_eq!(s.verification, ServerVerification::Skip);
    assert!(s.use_given_tls);
    assert_eq!(s.bind_addr, "[::]:0");
    assert_eq!(s.server_name, "localhost");
}

#[test]
fn connection_setup_failures() {
    assert!(matches!(connect_failure("bad".to_string()), ClientError::Read(m) if m == "connect: bad"));
    assert!(matches!(open_bi_failure("bad".to_string()), ClientError::Write(m) if m == "open_bi: bad"));
}

#[test]
fn session_failure_messages() {
    assert!(matches!(SessionError::open_bi_failed("x".to_string()), SessionError::Write(m) if m == "open_bi: x"));
    assert!(matches!(SessionError::send_datagram_failed("x".to_string()), SessionError::Write(m) if m == "send_datagram: x"));
    assert!(matches!(SessionError::recv_datagram_failed("x".to_string()), SessionError::Read(m) if m == "recv_datagram: x"));
}
