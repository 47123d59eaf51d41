use std::collections::VecDeque;

use compio_wt::connect::{
    Action, ClientHandshake, ClientPhase, Event, ServerHandshake, ServerPhase,
    SettingsReadFailure, Stream,
};
use compio_wt::error::{ClientError, ServerError};
use compio_wt::settings::our_settings_stream;
use web_transport_proto::{ConnectError, Frame, VarInt};

/// The shortest QUIC encoding of `v` (below 2^14 here).
fn varint(v: u64) -> Vec<u8> {
    if v < 64 {
        vec![v as u8]
    } else {
        (0x4000u16 | v as u16).to_be_bytes().to_vec()
    }
}

/// A frame of type `typ` carrying `payload`.
fn frame(typ: u64, payload: &[u8]) -> Vec<u8> {
    let mut out = varint(typ);
    out.extend(varint(payload.len() as u64));
    out.extend_from_slice(payload);
    out
}

/// The bytes travelling in one direction on one stream.
#[derive(Default)]
struct Pipe {
    bytes: VecDeque<u8>,
    open: bool,
}

/// The four pipes between a client and a server.
#[derive(Default)]
struct Wire {
    client_uni: Pipe, // client control stream, client -> server
    server_uni: Pipe, // server control stream, server -> client
    request: Pipe,    // bidirectional stream, client -> server
    response: Pipe,   // bidirectional stream, server -> client
}

enum Side {
    Client,
    Server,
}

impl Wire {
    fn recv(&mut self, side: &Side, stream: Stream) -> &mut Pipe {
        match (side, stream) {
            (Side::Client, Stream::UniRecv) => &mut self.server_uni,
            (Side::Client, Stream::UniSend) => &mut self.client_uni,
            (Side::Client, Stream::BiRecv) => &mut self.response,
            (Side::Client, Stream::BiSend) => &mut self.request,
            (Side::Server, Stream::UniRecv) => &mut self.client_uni,
            (Side::Server, Stream::UniSend) => &mut self.server_uni,
            (Side::Server, Stream::BiRecv) => &mut self.request,
            (Side::Server, Stream::BiSend) => &mut self.response,
        }
    }

    /// Performs `action` for `side` if it can be done now.
    fn perform(&mut self, side: &Side, action: &Action) -> Option<Event> {
        match action {
            Action::AcceptUni => {
                let peer = match side {
                    Side::Client => &self.server_uni,
                    Side::Server => &self.client_uni,
                };
                if peer.open {
                    Some(Event::UniAccepted)
                } else {
                    None
                }
            }
            Action::OpenUni => {
                match side {
                    Side::Client => self.client_uni.open = true,
                    Side::Server => self.server_uni.open = true,
                }
                Some(Event::UniOpened)
            }
            Action::Read(stream, n) => {
                let pipe = self.recv(side, *stream);
                if pipe.bytes.len() >= *n {
                    Some(Event::Data(pipe.bytes.drain(..*n).collect()))
                } else {
                    None
                }
            }
            Action::Write(stream, bytes) => {
                self.recv(side, *stream).bytes.extend(bytes.iter().copied());
                Some(Event::Written)
            }
            Action::Finish => None,
        }
    }
}

fn url() -> url::Url {
    url::Url::parse("https://example.com/session?x=1").unwrap()
}

/// Runs a client and a server against each other until neither can move.
fn run(
    wire: &mut Wire,
    client: &mut ClientHandshake,
    mut client_action: Action,
    server: &mut ServerHandshake,
    mut server_action: Action,
) {
    loop {
        let mut moved = false;
        if let Some(event) = wire.perform(&Side::Client, &client_action) {
            assert!(client.accepts(&event));
            client_action = client.step(event);
            moved = true;
        }
        if let Some(event) = wire.perform(&Side::Server, &server_action) {
            assert!(server.accepts(&event));
            server_action = server.step(event);
            moved = true;
        }
        if !moved {
            return;
        }
    }
}

#[test]
fn client_and_server_complete_the_handshake() {
    let mut wire = Wire::default();
    let (mut client, ca) = ClientHandshake::start(&url());
    let (mut server, sa) = ServerHandshake::start();
    run(&mut wire, &mut client, ca, &mut server, sa);
    assert!(client.is_done());
    assert!(server.is_done());
    let (req, resp) = server.into_result().unwrap();
    assert_eq!(req.url.as_str(), "https://example.com/session?x=1");
    assert_eq!(resp.status, 200);
    assert!(resp.protocol.is_none());
    assert!(req.protocols.is_empty());
    let (creq, cresp) = client.into_result().unwrap();
    assert_eq!(creq.url.as_str(), "https://example.com/session?x=1");
    assert_eq!(cresp.status, 200);
    // every byte written was read
    assert!(wire.client_uni.bytes.is_empty());
    assert!(wire.server_uni.bytes.is_empty());
    assert!(wire.request.bytes.is_empty());
    assert!(wire.response.bytes.is_empty());
}

#[test]
fn server_asks_for_the_control_stream_first() {
    let (mut server, action) = ServerHandshake::start();
    assert!(matches!(action, Action::AcceptUni));
    assert!(!server.accepts(&Event::Written));
    let next = server.step(Event::UniAccepted);
    assert!(matches!(next, Action::Read(Stream::UniRecv, 1)));
}

/// A server that accepted the peer's control stream and is handed `bytes` on it.
fn server_reading(bytes: &[u8], kind: SettingsReadFailure) -> ServerHandshake {
    let (mut server, _) = ServerHandshake::start_with(kind);
    let mut action = server.step(Event::UniAccepted);
    let mut input: VecDeque<u8> = bytes.iter().copied().collect();
    loop {
        match action {
            Action::Read(Stream::UniRecv, n) => {
                if input.len() < n {
                    return server;
                }
                let chunk: Vec<u8> = input.drain(..n).collect();
                action = server.step(Event::Data(chunk));
            }
            _ => return server,
        }
    }
}

fn settings_error(server: ServerHandshake) -> String {
    match server.into_result() {
        Err(ServerError::Settings(m)) => m,
        other => panic!("expected a SETTINGS failure, got {other:?}"),
    }
}

#[test]
fn server_refuses_a_stream_that_is_not_a_control_stream() {
    let server = server_reading(&[0x01], SettingsReadFailure::AsSettings);
    assert_eq!(settings_error(server), "expected CONTROL stream");
}

#[test]
fn server_refuses_a_first_frame_that_is_not_settings() {
    let mut bytes = vec![0x00];
    bytes.extend(frame(0x01, &[]));
    let server = server_reading(&bytes, SettingsReadFailure::AsSettings);
    assert_eq!(settings_error(server), "expected SETTINGS frame");
}

#[test]
fn server_refuses_settings_without_webtransport() {
    // stream type, then a SETTINGS frame with no id/value pairs
    let mut bytes = vec![0x00];
    bytes.extend(frame(0x04, &[]));
    let server = server_reading(&bytes, SettingsReadFailure::AsSettings);
    assert_eq!(settings_error(server), "peer does not support WebTransport");
}

#[test]
fn server_accepts_our_settings_and_opens_its_control_stream() {
    let server = server_reading(&our_settings_stream(), SettingsReadFailure::AsSettings);
    assert!(matches!(server.phase, ServerPhase::OpenControl));
}

#[test]
fn server_accepts_a_standard_control_stream() {
    // id/value pairs as a plain HTTP/3 peer writes them:
    // ENABLE_DATAGRAM (0x33) = 1, WEBTRANSPORT_MAX_SESSIONS (0xc671706a) = 4
    let mut pairs = vec![0x33, 0x01];
    pairs.extend([0xc0, 0x00, 0x00, 0x00, 0xc6, 0x71, 0x70, 0x6a, 0x04]);
    let mut bytes = vec![0x00];
    bytes.extend(frame(0x04, &pairs));
    let server = server_reading(&bytes, SettingsReadFailure::AsSettings);
    assert!(matches!(server.phase, ServerPhase::OpenControl));
}

#[test]
fn server_reports_a_failed_settings_read_as_its_kind_says() {
    let (mut server, _) = ServerHandshake::start();
    server.step(Event::UniAccepted);
    let a = server.step(Event::ReadFailed("eof".to_string()));
    assert!(matches!(a, Action::Finish));
    assert_eq!(settings_error(server), "read varint: eof");

    let (mut server, _) = ServerHandshake::start_with(SettingsReadFailure::AsRead);
    server.step(Event::UniAccepted);
    server.step(Event::ReadFailed("eof".to_string()));
    match server.into_result() {
        Err(ServerError::Read(m)) => assert_eq!(m, "read varint: eof"),
        other => panic!("expected a read failure, got {other:?}"),
    }
}

#[test]
fn server_reports_a_failed_payload_read() {
    let server = server_reading(&[0x00, 0x04, 0x05], SettingsReadFailure::AsSettings);
    let mut server = server;
    server.step(Event::ReadFailed("reset".to_string()));
    assert_eq!(settings_error(server), "frame payload: reset");
}

#[test]
fn server_reports_open_and_write_failures() {
    let bytes = our_settings_stream();
    let mut server = server_reading(&bytes, SettingsReadFailure::AsSettings);
    server.step(Event::OpenUniFailed("closed".to_string()));
    assert!(matches!(server.into_result(), Err(ServerError::Write(m)) if m == "closed"));

    let mut server = server_reading(&bytes, SettingsReadFailure::AsSettings);
    // the stream type, then the SETTINGS frame's type, length and payload, one write each
    let mut written = Vec::new();
    let mut a = server.step(Event::UniOpened);
    let mut writes = 0;
    while let Action::Write(Stream::UniSend, b) = a {
        written.extend(b);
        writes += 1;
        a = server.step(Event::Written);
    }
    assert_eq!(writes, 4);
    assert!(matches!(a, Action::Read(Stream::BiRecv, 1)));
    // the pairs come in the order of a hash map, so compare the head and the length
    assert_eq!(written.len(), bytes.len());
    assert_eq!(&written[..3], &bytes[..3]);
    assert_eq!(&written[..2], &[0x00, 0x04]);
    assert_eq!(written[2] as usize, written.len() - 3);

    // a failure of each write is reported with what it carried
    let labels = ["gone", "frame type: gone", "frame len: gone", "frame payload: gone"];
    for (k, expected) in labels.iter().enumerate() {
        let mut server = server_reading(&bytes, SettingsReadFailure::AsSettings);
        server.step(Event::UniOpened);
        for _ in 0..k {
            server.step(Event::Written);
        }
        server.step(Event::WriteFailed("gone".to_string()));
        assert!(matches!(server.into_result(), Err(ServerError::Write(m)) if m == *expected));
    }
}

#[test]
fn server_refuses_a_request_in_a_non_headers_frame() {
    let mut wire = Wire::default();
    let (mut client, ca) = ClientHandshake::start(&url());
    let (mut server, sa) = ServerHandshake::start();
    // let the SETTINGS exchange happen, then swap the client's request for a DATA frame
    let mut client_action = ca;
    let mut server_action = sa;
    loop {
        let mut moved = false;
        if !matches!(client_action, Action::Write(Stream::BiSend, _)) {
            if let Some(event) = wire.perform(&Side::Client, &client_action) {
                client_action = client.step(event);
                moved = true;
            }
        }
        if let Some(event) = wire.perform(&Side::Server, &server_action) {
            server_action = server.step(event);
            moved = true;
        }
        if !moved {
            break;
        }
    }
    wire.request.bytes.extend(frame(0x00, &[1, 2]));
    while let Some(event) = wire.perform(&Side::Server, &server_action) {
        server_action = server.step(event);
    }
    match server.into_result() {
        Err(ServerError::Connect(ConnectError::UnexpectedFrame(f))) => {
            assert_eq!(f, Frame(VarInt::from_u32(0)))
        }
        other => panic!("expected an unexpected-frame error, got {other:?}"),
    }
    // every byte of the DATA frame was read, nothing more
    assert!(wire.request.bytes.is_empty());
}

#[test]
fn server_reports_a_failed_request_read_as_a_read_failure() {
    let mut wire = Wire::default();
    let (mut client, ca) = ClientHandshake::start(&url());
    let (mut server, sa) = ServerHandshake::start();
    let mut client_action = ca;
    let mut server_action = sa;
    loop {
        let mut moved = false;
        if !matches!(client_action, Action::Write(Stream::BiSend, _)) {
            if let Some(event) = wire.perform(&Side::Client, &client_action) {
                client_action = client.step(event);
                moved = true;
            }
        }
        if let Some(event) = wire.perform(&Side::Server, &server_action) {
            server_action = server.step(event);
            moved = true;
        }
        if !moved {
            break;
        }
    }
    assert!(matches!(server_action, Action::Read(Stream::BiRecv, 1)));
    server.step(Event::ReadFailed("eof".to_string()));
    assert!(matches!(server.into_result(), Err(ServerError::Read(m)) if m == "read varint: eof"));
}

/// A client whose settings are written and who accepted the server's control
/// stream, handed `bytes` on it.
fn client_reading(bytes: &[u8]) -> ClientHandshake {
    let (mut client, _) = ClientHandshake::start(&url());
    let mut action = client.step(Event::UniOpened);
    while matches!(action, Action::Write(Stream::UniSend, _)) {
        action = client.step(Event::Written);
    }
    assert!(matches!(action, Action::AcceptUni));
    let mut action = client.step(Event::UniAccepted);
    let mut input: VecDeque<u8> = bytes.iter().copied().collect();
    loop {
        match action {
            Action::Read(_, n) => {
                if input.len() < n {
                    return client;
                }
                let chunk: Vec<u8> = input.drain(..n).collect();
                action = client.step(Event::Data(chunk));
            }
            Action::Write(Stream::BiSend, _) => action = client.step(Event::Written),
            _ => return client,
        }
    }
}

#[test]
fn client_refuses_a_server_without_webtransport() {
    let mut bytes = vec![0x00];
    bytes.extend(frame(0x04, &[]));
    let client = client_reading(&bytes);
    match client.into_result() {
        Err(ClientError::Settings(m)) => assert_eq!(m, "server does not support WebTransport"),
        other => panic!("expected a SETTINGS failure, got {other:?}"),
    }
}

#[test]
fn client_refuses_a_response_that_is_not_headers() {
    let mut bytes = our_settings_stream();
    // the response: a DATA frame
    bytes.extend(frame(0x00, &[]));
    let client = client_reading(&bytes);
    match client.into_result() {
        Err(ClientError::Read(m)) => assert_eq!(m, "expected HEADERS frame, got 0"),
        other => panic!("expected a read failure, got {other:?}"),
    }
}

#[test]
fn client_reports_a_failed_accept() {
    let (mut client, _) = ClientHandshake::start(&url());
    client.step(Event::OpenUniFailed("refused".to_string()));
    assert!(matches!(client.phase, ClientPhase::Done(Err(ClientError::Write(ref m))) if m == "refused"));
}

#[test]
fn server_error_becomes_the_same_client_error() {
    let e: ClientError = ServerError::Settings("x".to_string()).into();
    assert!(matches!(e, ClientError::Settings(m) if m == "x"));
    let e: ClientError = ServerError::Read("r".to_string()).into();
    assert!(matches!(e, ClientError::Read(m) if m == "r"));
    let e: ClientError = ServerError::Write("w".to_string()).into();
    assert!(matches!(e, ClientError::Write(m) if m == "w"));
}

#[test]
fn handshakes_refuse_events_that_do_not_answer_their_action() {
    let (mut server, _) = ServerHandshake::start();
    server.step(Event::UniAccepted);
    assert!(!server.accepts(&Event::Data(vec![0, 0])));
    assert!(server.accepts(&Event::Data(vec![0])));
    assert!(!server.accepts(&Event::UniOpened));
    let (client, action) = ClientHandshake::start(&url());
    assert!(matches!(action, Action::OpenUni));
    assert!(!client.accepts(&Event::UniAccepted));
    assert!(client.accepts(&Event::UniOpened));
}

#[test]
fn client_writes_the_request_frame_part_by_part() {
    let server_stream = our_settings_stream();
    // a client that accepted the server's settings is about to write its request
    let (mut client, _) = ClientHandshake::start(&url());
    let mut action = client.step(Event::UniOpened);
    while matches!(action, Action::Write(Stream::UniSend, _)) {
        action = client.step(Event::Written);
    }
    action = client.step(Event::UniAccepted);
    let mut input: VecDeque<u8> = server_stream.iter().copied().collect();
    while let Action::Read(Stream::UniRecv, n) = action {
        let chunk: Vec<u8> = input.drain(..n).collect();
        action = client.step(Event::Data(chunk));
    }
    // the HEADERS type, the length, the field section
    let first = match action {
        Action::Write(Stream::BiSend, ref b) => b.clone(),
        _ => panic!("expected the request's first write"),
    };
    assert_eq!(first, vec![0x01]);
    let second = match client.step(Event::Written) {
        Action::Write(Stream::BiSend, b) => b,
        _ => panic!("expected the request's length"),
    };
    let third = match client.step(Event::Written) {
        Action::Write(Stream::BiSend, b) => b,
        _ => panic!("expected the request's field section"),
    };
    let mut frame_bytes = first.clone();
    frame_bytes.extend(&second);
    frame_bytes.extend(&third);
    let back = compio_wt::message::request_from_frame(1, &frame_bytes).unwrap();
    assert_eq!(back.url.as_str(), "https://example.com/session?x=1");
    client.step(Event::WriteFailed("reset".to_string()));
    match client.into_result() {
        Err(ClientError::Write(m)) => assert_eq!(m, "frame payload: reset"),
        other => panic!("expected a write failure, got {other:?}"),
    }
}
