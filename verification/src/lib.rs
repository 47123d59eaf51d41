//! WebTransport over QUIC: the HTTP/3 SETTINGS exchange and the WebTransport
//! CONNECT handshake, as state machines that a driver feeds with what its
//! streams deliver, and the choices a client makes before it connects.
use vstd::prelude::*;

pub mod varint;
pub mod frame;
pub mod error;
pub mod settings;
pub mod message;
pub mod control;
pub mod write;
pub mod connect;
pub mod client;

verus! {

/// The HTTP/3 ALPN required for WebTransport.
pub const ALPN: &'static str = "h3";

} // verus!
