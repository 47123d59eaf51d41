# compio_wt

The WebTransport handshake over QUIC, verified with Verus.

A WebTransport session starts with an HTTP/3 SETTINGS exchange on the two
unidirectional control streams, then a CONNECT request and its `200` response
on a bidirectional stream. `src/` holds that handshake as two state machines
(`connect::ServerHandshake`, `connect::ClientHandshake`): each one tells its
driver what to do next (accept or open a control stream, read an exact number
of bytes, write bytes) and is handed what came of it. The QUIC varints, the
frame reader, the settings and the CONNECT messages each have a
module of their own; the encoding and decoding of settings and of CONNECT
messages are `web-transport-proto`'s, and each of them writes or reads a whole
frame, header included. So the wire carries the standard HTTP/3 layout: the
control stream type followed by one SETTINGS frame whose payload is the
identifier/value pairs, and one HEADERS frame for the request and one for the
response, none of them wrapped in a further frame.

`app/` drives the machines over `compio-quic` and holds the server, the client
and the established session.

Layout of `src/`:

- `varint.rs`: QUIC variable-length integers, and the proof that decoding gives
  back what encoding wrote.
- `frame.rs`: the incremental frame reader, what a frame's bytes are, and the
  proof that the reader reads a frame back exactly, whatever follows it.
- `settings.rs`: the settings this side sends (the stream type, then one
  SETTINGS frame whose payload is the identifier/value pairs) and the
  WebTransport check on the peer's settings.
- `write.rs`: the writes that put a frame on a stream (its type, its length,
  its payload, and before a SETTINGS frame the control stream type), each
  reported by what it carried when it fails.
- `control.rs`: reading the peer's control stream, and the proof that the
  control stream either side writes passes the other side's check.
- `message.rs`: the CONNECT request and response frames, and the proof that
  the client reads a 200 response back from the frame the server writes.
- `connect.rs`: the server and client handshakes.
- `client.rs`: the choices a client makes before it connects.
- `error.rs`: the errors.
