//! How a WebTransport client sets up its QUIC endpoint before it connects.
use vstd::prelude::*;
use crate::error::ClientError;

verus! {

/// How the client checks the server's certificate.
#[derive(Clone, Copy, Debug, PartialEq, Eq)]
pub enum ServerVerification {
    /// Not at all (for tests against self-signed certificates).
    Skip,
    /// Against the webpki root certificates, without revocation lists.
    WebpkiRoots,
}

/// The choices a client makes before it connects.
pub struct ClientSetup {
    /// How the server's certificate is checked, when no TLS configuration is given.
    pub verification: ServerVerification,
    /// Whether the TLS configuration given by the caller is used.
    pub use_given_tls: bool,
    /// Keep-alive interval, in seconds.
    pub keep_alive_secs: u64,
    /// Idle timeout, in seconds.
    pub max_idle_timeout_secs: u64,
    /// Initial MTU, in bytes.
    pub initial_mtu: u16,
    /// The local address to bind: any address of the server's family, any port.
    pub bind_addr: String,
    /// The TLS server name: the URL's host, or `localhost` when it has none.
    pub server_name: String,
}

/// The choices for a connection to a server at an IPv6 address or not
/// (`server_is_ipv6`), to the URL host `host`, with a TLS configuration given
/// or not (`has_tls_config`), checking the server's certificate or not
/// (`insecure_skip_verify`).
pub fn client_setup(
    insecure_skip_verify: bool,
    has_tls_config: bool,
    server_is_ipv6: bool,
    host: Option<&str>,
) -> (r: ClientSetup)
    ensures
        r.verification == (if insecure_skip_verify {
            ServerVerification::Skip
        } else {
            ServerVerification::WebpkiRoots
        }),
        r.use_given_tls == has_tls_config,
        r.keep_alive_secs == 1,
        r.max_idle_timeout_secs == 60,
        r.initial_mtu == 1200,
        r.bind_addr@ == (if server_is_ipv6 {
            "[::]:0"@
        } else {
            "0.0.0.0:0"@
        }),
        r.server_name@ == match host {
            Some(h) => h@,
            None => "localhost"@,
        },
{
    let verification = if insecure_skip_verify {
        ServerVerification::Skip
    } else {
        ServerVerification::WebpkiRoots
    };
    let bind_addr = if server_is_ipv6 {
        String::from_str("[::]:0")
    } else {
        String::from_str("0.0.0.0:0")
    };
    let server_name = match host {
        Some(h) => String::from_str(h),
        None => String::from_str("localhost"),
    };
    ClientSetup {
        verification,
        use_given_tls: has_tls_config,
        keep_alive_secs: 1,
        max_idle_timeout_secs: 60,
        initial_mtu: 1200,
        bind_addr,
        server_name,
    }
}

/// Starting the QUIC connection failed with `detail`: a read failure.
pub fn connect_failure(detail: String) -> (e: ClientError)
    ensures
        e matches ClientError::Read(m) && m@ == "connect: "@ + detail@,
{
    ClientError::Read(String::from_str("connect: ").concat(detail.as_str()))
}

/// Opening the session's bidirectional stream failed with `detail`: a write
/// failure.
pub fn open_bi_failure(detail: String) -> (e: ClientError)
    ensures
        e matches ClientError::Write(m) && m@ == "open_bi: "@ + detail@,
{
    ClientError::Write(String::from_str("open_bi: ").concat(detail.as_str()))
}

} // verus!
