//! The errors of the server side, the client side and an established session.
use std::sync::Arc;
use vstd::prelude::*;

verus! {

#[verifier::external_type_specification]
#[verifier::external_body]
pub struct ExConnectionError(compio_quic::ConnectionError);

#[verifier::external_type_specification]
#[verifier::external_body]
pub struct ExRustlsError(rustls::Error);

#[verifier::external_type_specification]
#[verifier::external_body]
pub struct ExIoError(std::io::Error);

#[verifier::external_type_specification]
#[verifier::external_body]
pub struct ExConnectError(web_transport_proto::ConnectError);

/// Why accepting a WebTransport session failed.
#[derive(Debug)]
pub enum ServerError {
    /// The QUIC connection failed.
    Connection(compio_quic::ConnectionError),
    /// TLS configuration failed.
    Rustls(rustls::Error),
    /// Binding the endpoint failed.
    Io(std::io::Error),
    /// The CONNECT request was malformed, or the response could not be encoded.
    Connect(web_transport_proto::ConnectError),
    /// The SETTINGS exchange failed.
    Settings(String),
    /// Reading from a stream failed.
    Read(String),
    /// Writing to a stream failed.
    Write(String),
}

/// Why connecting to a WebTransport server failed.
#[derive(Debug)]
pub enum ClientError {
    Connection(compio_quic::ConnectionError),
    Rustls(rustls::Error),
    Io(std::io::Error),
    Connect(web_transport_proto::ConnectError),
    Settings(String),
    Read(String),
    Write(String),
}

/// Why an operation on an established session failed.
#[derive(Clone, Debug)]
pub enum SessionError {
    /// The connection was lost.
    Connection(Arc<compio_quic::ConnectionError>),
    /// The session was closed with this code and reason.
    Closed(u32, String),
    Read(String),
    Write(String),
}

impl SessionError {
    /// Opening a bidirectional stream failed with `detail`: a write failure.
    pub fn open_bi_failed(detail: String) -> (e: SessionError)
        ensures
            e matches SessionError::Write(m) && m@ == "open_bi: "@ + detail@,
    {
        SessionError::Write(String::from_str("open_bi: ").concat(detail.as_str()))
    }

    /// Sending a datagram failed with `detail`: a write failure.
    pub fn send_datagram_failed(detail: String) -> (e: SessionError)
        ensures
            e matches SessionError::Write(m) && m@ == "send_datagram: "@ + detail@,
    {
        SessionError::Write(String::from_str("send_datagram: ").concat(detail.as_str()))
    }

    /// Receiving a datagram failed with `detail`: a read failure.
    pub fn recv_datagram_failed(detail: String) -> (e: SessionError)
        ensures
            e matches SessionError::Read(m) && m@ == "recv_datagram: "@ + detail@,
    {
        SessionError::Read(String::from_str("recv_datagram: ").concat(detail.as_str()))
    }
}

impl From<ServerError> for ClientError {
    /// Each server-side failure is the client-side failure of the same kind.
    fn from(e: ServerError) -> (r: ClientError) {
        match e {
            ServerError::Connection(e) => ClientError::Connection(e),
            ServerError::Rustls(e) => ClientError::Rustls(e),
            ServerError::Io(e) => ClientError::Io(e),
            ServerError::Connect(e) => ClientError::Connect(e),
            ServerError::Settings(e) => ClientError::Settings(e),
            ServerError::Read(e) => ClientError::Read(e),
            ServerError::Write(e) => ClientError::Write(e),
        }
    }
}

impl vstd::std_specs::convert::FromSpecImpl<ServerError> for ClientError {
    open spec fn obeys_from_spec() -> bool {
        true
    }

    open spec fn from_spec(e: ServerError) -> ClientError {
        match e {
            ServerError::Connection(e) => ClientError::Connection(e),
            ServerError::Rustls(e) => ClientError::Rustls(e),
            ServerError::Io(e) => ClientError::Io(e),
            ServerError::Connect(e) => ClientError::Connect(e),
            ServerError::Settings(e) => ClientError::Settings(e),
            ServerError::Read(e) => ClientError::Read(e),
            ServerError::Write(e) => ClientError::Write(e),
        }
    }
}

impl From<compio_quic::ConnectionError> for SessionError {
    /// A lost connection, shared so that the error can be cloned.
    fn from(e: compio_quic::ConnectionError) -> (r: SessionError) {
        SessionError::Connection(Arc::new(e))
    }
}

impl vstd::std_specs::convert::FromSpecImpl<compio_quic::ConnectionError> for SessionError {
    open spec fn obeys_from_spec() -> bool {
        true
    }

    open spec fn from_spec(e: compio_quic::ConnectionError) -> SessionError {
        SessionError::Connection(Arc::new(e))
    }
}

} // verus!
