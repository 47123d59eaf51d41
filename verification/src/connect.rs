//! The HTTP/3 SETTINGS exchange and the WebTransport CONNECT handshake, on the
//! server side and on the client side.
//!
//! Each side is a state machine. It tells its driver what to do next (accept
//! or open a unidirectional stream, read an exact number of bytes from a
//! stream, write bytes to a stream) and is handed what came of it. The driver
//! owns the QUIC connection and its streams; every decision is taken here.
use url::Url;
use vstd::prelude::*;
use web_transport_proto::{ConnectRequest, ConnectResponse};
use crate::control::{ControlRead, ControlStep, PeerSettings};
use crate::error::{ClientError, ServerError};
use crate::frame::{FrameOutcome, FrameProgress, FrameRead, VarintProgress, VarintRead};
use crate::message::{
    connect_request_for, decimal, decoded_request_target, decoded_response, ok_response,
    request_decodes, request_encode_error, request_encodes, request_for_url, request_from_frame,
    request_target, response_decode_error, response_decodes, response_from_frame,
    response_protocol, response_status, unexpected_frame_error, HEADERS_FRAME,
};
use crate::write::{
    next_write, start_request_writes, start_response_writes, start_settings_writes, PlannedWrite,
    Writes, writes_ok_response, writes_our_settings, writes_request,
};
use crate::settings::{
    settings_decode_error, settings_from_stream, webtransport_sessions, CONTROL_STREAM,
};

verus! {

/// The four streams of a handshake: the peer's control stream, our control
/// stream, and the two directions of the session's bidirectional stream.
#[derive(Clone, Copy, Debug, PartialEq, Eq)]
pub enum Stream {
    UniRecv,
    UniSend,
    BiRecv,
    BiSend,
}

/// What the driver is asked to do next.
#[derive(Debug)]
pub enum Action {
    /// Accept the peer's unidirectional (control) stream.
    AcceptUni,
    /// Open our unidirectional (control) stream.
    OpenUni,
    /// Read exactly this many bytes from the stream.
    Read(Stream, usize),
    /// Write all of these bytes to the stream.
    Write(Stream, Vec<u8>),
    /// Nothing more: the handshake is over.
    Finish,
}

/// What came of the last action.
#[derive(Debug)]
pub enum Event {
    /// The peer's unidirectional stream was accepted.
    UniAccepted,
    /// Accepting it failed: the connection is gone.
    AcceptUniFailed(compio_quic::ConnectionError),
    /// Our unidirectional stream was opened.
    UniOpened,
    /// Opening it failed, with this message.
    OpenUniFailed(String),
    /// The bytes read.
    Data(Vec<u8>),
    /// The read failed, with this message.
    ReadFailed(String),
    /// The bytes were written.
    Written,
    /// The write failed, with this message.
    WriteFailed(String),
}

/// The writes that `action`, a write, starts, when `w` holds the ones after
/// it, with it in flight.
pub open spec fn started_writes(action: Action, w: Writes) -> Seq<PlannedWrite> {
    match action {
        Action::Write(_, b) => seq![(b@, w.current)] + w.remaining(),
        _ => Seq::empty(),
    }
}

/// `action` writes to `stream`.
pub open spec fn writes_to(action: Action, stream: Stream) -> bool {
    action matches Action::Write(s, _) && s == stream
}

/// `action` writes to `stream` the next of the writes `w` holds, and `w2`
/// holds the others, with that one in flight.
pub open spec fn continues_writes(action: Action, stream: Stream, w: Writes, w2: Writes) -> bool {
    &&& w.remaining().len() > 0
    &&& action matches Action::Write(s, b) && s == stream && b@ == w.remaining()[0].0
    &&& w2.current == w.remaining()[0].1
    &&& w2.remaining() == w.remaining().drop_first()
}

/// `event` is something that can come of `action`: an accepted or refused
/// stream, an opened stream or a failure to open one, the bytes asked for or
/// a failed read, a done or failed write. Nothing comes of `Finish`.
pub open spec fn answers(action: Action, event: Event) -> bool {
    match action {
        Action::AcceptUni => event is UniAccepted || event is AcceptUniFailed,
        Action::OpenUni => event is UniOpened || event is OpenUniFailed,
        Action::Read(_, n) => (event matches Event::Data(d) && d@.len() == n) || event is ReadFailed,
        Action::Write(_, _) => event is Written || event is WriteFailed,
        Action::Finish => false,
    }
}

/// Appends `data` to `buf`.
fn append_bytes(buf: &mut Vec<u8>, data: &[u8])
    ensures
        final(buf)@ == old(buf)@ + data@,
{
    let ghost start = buf@;
    let mut i: usize = 0;
    while i < data.len()
        invariant
            i <= data@.len(),
            buf@ == start + data@.take(i as int),
        decreases data@.len() - i,
    {
        buf.push(data[i]);
        i = i + 1;
        assert(buf@ =~= start + data@.take(i as int));
    }
    assert(data@.take(data@.len() as int) =~= data@);
}

} // verus!

verus! {

// ---------------------------------------------------------------------------
// Server side
// ---------------------------------------------------------------------------

/// Where the server side of a handshake stands.
#[derive(Debug)]
pub enum ServerPhase {
    /// Waiting for the peer's control stream.
    AcceptControl,
    /// Reading the type of the peer's unidirectional stream; the bytes read so far.
    ControlType(VarintRead, Vec<u8>),
    /// Reading the peer's SETTINGS frame; the stream's bytes read so far.
    SettingsFrame(FrameRead, Vec<u8>),
    /// Waiting for our control stream to open.
    OpenControl,
    /// Writing our settings: the writes left.
    SendSettings(Writes),
    /// Reading the CONNECT request; the frame's bytes read so far.
    RequestFrame(FrameRead, Vec<u8>),
    /// Writing the 200 response; the request, the response and the writes left.
    SendResponse(ConnectRequest, ConnectResponse, Writes),
    /// Over.
    Done(Result<(ConnectRequest, ConnectResponse), ServerError>),
}

/// How the server reports a failed read while it reads the peer's settings.
#[derive(Clone, Copy, Debug, PartialEq, Eq)]
pub enum SettingsReadFailure {
    /// As a failure of the SETTINGS exchange.
    AsSettings,
    /// As a read failure.
    AsRead,
}

/// The server side of the SETTINGS exchange and CONNECT handshake on an
/// accepted QUIC connection whose bidirectional stream the driver accepted.
#[derive(Debug)]
pub struct ServerHandshake {
    pub phase: ServerPhase,
    pub settings_read_failure: SettingsReadFailure,
}

impl ServerHandshake {
    pub open spec fn wf(self) -> bool {
        match self.phase {
            ServerPhase::ControlType(v, _) => v.wf(),
            ServerPhase::SettingsFrame(r, _) => r.wf(),
            ServerPhase::RequestFrame(r, _) => r.wf(),
            ServerPhase::SendResponse(_, resp, _) => response_status(resp) == 200
                && response_protocol(resp) is None,
            _ => true,
        }
    }

    /// The events that can answer the action last asked for.
    pub open spec fn expects(self, event: Event) -> bool {
        match self.phase {
            ServerPhase::AcceptControl => event is UniAccepted || event is AcceptUniFailed,
            ServerPhase::ControlType(v, _) => (event matches Event::Data(d) && d@.len()
                == v.want()) || event is ReadFailed,
            ServerPhase::SettingsFrame(r, _) => (event matches Event::Data(d) && d@.len()
                == r.want()) || event is ReadFailed,
            ServerPhase::OpenControl => event is UniOpened || event is OpenUniFailed,
            ServerPhase::SendSettings(_) => event is Written || event is WriteFailed,
            ServerPhase::RequestFrame(r, _) => (event matches Event::Data(d) && d@.len()
                == r.want()) || event is ReadFailed,
            ServerPhase::SendResponse(_, _, _) => event is Written || event is WriteFailed,
            ServerPhase::Done(_) => false,
        }
    }

    /// Where the reading of the peer's control stream stands, while it is
    /// read, with the stream's bytes read so far.
    pub open spec fn control_read(self) -> Option<(ControlRead, Seq<u8>)> {
        match self.phase {
            ServerPhase::ControlType(v, b) => Some((ControlRead::StreamType(v), b@)),
            ServerPhase::SettingsFrame(r, b) => Some((ControlRead::Settings(r), b@)),
            _ => None,
        }
    }

    /// Where the reading of the CONNECT request stands, while it is read, with
    /// the frame's bytes read so far.
    pub open spec fn request_read(self) -> Option<(FrameRead, Seq<u8>)> {
        match self.phase {
            ServerPhase::RequestFrame(r, b) => Some((r, b@)),
            _ => None,
        }
    }

    /// The handshake ended with a failure of the SETTINGS exchange with this message.
    pub open spec fn failed_settings(self, m: Seq<char>) -> bool {
        self.phase matches ServerPhase::Done(Err(ServerError::Settings(s))) && s@ == m
    }

    /// The handshake ended with a read failure with this message.
    pub open spec fn failed_read(self, m: Seq<char>) -> bool {
        self.phase matches ServerPhase::Done(Err(ServerError::Read(s))) && s@ == m
    }

    /// The handshake ended with a failed read of the peer's settings, reported
    /// as `kind` says, with this message.
    pub open spec fn failed_settings_read(self, kind: SettingsReadFailure, m: Seq<char>) -> bool {
        match kind {
            SettingsReadFailure::AsSettings => self.failed_settings(m),
            SettingsReadFailure::AsRead => self.failed_read(m),
        }
    }

    /// The handshake ended with a write failure with this message.
    pub open spec fn failed_write(self, m: Seq<char>) -> bool {
        self.phase matches ServerPhase::Done(Err(ServerError::Write(s))) && s@ == m
    }

    /// A new handshake, which first accepts the peer's control stream. A
    /// failed read of the peer's settings is a failure of the SETTINGS
    /// exchange.
    pub fn start() -> (r: (ServerHandshake, Action))
        ensures
            r.0.phase is AcceptControl,
            r.0.settings_read_failure == SettingsReadFailure::AsSettings,
            r.1 is AcceptUni,
            r.0.wf(),
            forall|e: Event| answers(r.1, e) <==> #[trigger] r.0.expects(e),
    {
        ServerHandshake::start_with(SettingsReadFailure::AsSettings)
    }

    /// A new handshake, which first accepts the peer's control stream and
    /// reports a failed read of the peer's settings as `kind` says.
    pub fn start_with(kind: SettingsReadFailure) -> (r: (ServerHandshake, Action))
        ensures
            r.0.phase is AcceptControl,
            r.0.settings_read_failure == kind,
            r.1 is AcceptUni,
            r.0.wf(),
            forall|e: Event| answers(r.1, e) <==> #[trigger] r.0.expects(e),
    {
        (
            ServerHandshake { phase: ServerPhase::AcceptControl, settings_read_failure: kind },
            Action::AcceptUni,
        )
    }

    /// A failed read of the peer's settings, with this message.
    fn settings_read_error(&self, m: String) -> (e: ServerError)
        ensures
            match self.settings_read_failure {
                SettingsReadFailure::AsSettings => e matches ServerError::Settings(s) && s@ == m@,
                SettingsReadFailure::AsRead => e matches ServerError::Read(s) && s@ == m@,
            },
    {
        match self.settings_read_failure {
            SettingsReadFailure::AsSettings => ServerError::Settings(m),
            SettingsReadFailure::AsRead => ServerError::Read(m),
        }
    }

    /// Whether `event` answers the action last asked for.
    pub fn accepts(&self, event: &Event) -> (r: bool)
        ensures
            r == self.expects(*event),
    {
        match (&self.phase, event) {
            (ServerPhase::AcceptControl, Event::UniAccepted) => true,
            (ServerPhase::AcceptControl, Event::AcceptUniFailed(_)) => true,
            (ServerPhase::ControlType(v, _), Event::Data(d)) => d.len() == v.wanted(),
            (ServerPhase::ControlType(_, _), Event::ReadFailed(_)) => true,
            (ServerPhase::SettingsFrame(r, _), Event::Data(d)) => d.len() == r.wanted(),
            (ServerPhase::SettingsFrame(_, _), Event::ReadFailed(_)) => true,
            (ServerPhase::OpenControl, Event::UniOpened) => true,
            (ServerPhase::OpenControl, Event::OpenUniFailed(_)) => true,
            (ServerPhase::SendSettings(_), Event::Written) => true,
            (ServerPhase::SendSettings(_), Event::WriteFailed(_)) => true,
            (ServerPhase::RequestFrame(r, _), Event::Data(d)) => d.len() == r.wanted(),
            (ServerPhase::RequestFrame(_, _), Event::ReadFailed(_)) => true,
            (ServerPhase::SendResponse(_, _, _), Event::Written) => true,
            (ServerPhase::SendResponse(_, _, _), Event::WriteFailed(_)) => true,
            _ => false,
        }
    }

    /// Whether the handshake is over.
    pub fn is_done(&self) -> (r: bool)
        ensures
            r == self.phase is Done,
    {
        match self.phase {
            ServerPhase::Done(_) => true,
            _ => false,
        }
    }

    /// The outcome of a finished handshake: the request and the response, or
    /// why it failed.
    pub fn into_result(self) -> (r: Result<(ConnectRequest, ConnectResponse), ServerError>)
        requires
            self.phase is Done,
        ensures
            self.phase == ServerPhase::Done(r),
    {
        match self.phase {
            ServerPhase::Done(r) => r,
            _ => {
                // ruled out by the precondition
                proof {
                    assert(false);
                }
                Err(ServerError::Read(String::new()))
            },
        }
    }

    /// Takes in what came of the last action and says what to do next.
    ///
    /// In order: accept the peer's control stream; read its stream type (it
    /// must be the control stream) and its SETTINGS frame (the peer must
    /// support WebTransport); open our control stream and write our settings;
    /// read the CONNECT request (a HEADERS frame) from the bidirectional
    /// stream; write the 200 response. A failure while reading the peer's
    /// settings is reported as `settings_read_failure` says; a failure while
    /// reading the request is a read failure; a failed write is a write
    /// failure. A frame goes out as three writes (its type, its length, its
    /// payload), the control stream type in a write before them, and a failed
    /// write says which of them it carried.
    pub fn step(&mut self, event: Event) -> (action: Action)
        requires
            old(self).wf(),
            old(self).expects(event),
        ensures
            final(self).wf(),
            forall|e: Event| answers(action, e) <==> #[trigger] final(self).expects(e),
            final(self).settings_read_failure == old(self).settings_read_failure,
            action is Finish <==> final(self).phase is Done,
            // accepting the peer's control stream
            old(self).phase is AcceptControl && event is UniAccepted ==> (final(self).control_read()
                == Some((ControlRead::initial(), Seq::<u8>::empty())) && action == Action::Read(
                Stream::UniRecv,
                1,
            )),
            old(self).phase is AcceptControl ==> (event matches Event::AcceptUniFailed(e)
                ==> final(self).phase == ServerPhase::Done(Err(ServerError::Connection(e)))),
            // reading the peer's control stream: its type, then its SETTINGS frame
            old(self).control_read() matches Some((c, read)) ==> (event matches Event::Data(d)
                ==> match c.outcome(read, d@) {
                ControlStep::More(c2) => final(self).control_read() == Some((c2, read + d@))
                    && action == Action::Read(Stream::UniRecv, c2.want() as usize),
                ControlStep::Verdict(v) => match v {
                    PeerSettings::Supported(_) => final(self).phase is OpenControl
                        && action is OpenUni,
                    PeerSettings::NotControl => final(self).failed_settings(
                        "expected CONTROL stream"@,
                    ),
                    PeerSettings::NotSettings => final(self).failed_settings(
                        "expected SETTINGS frame"@,
                    ),
                    PeerSettings::Unsupported => final(self).failed_settings(
                        "peer does not support WebTransport"@,
                    ),
                    PeerSettings::Undecodable => final(self).failed_settings(
                        settings_decode_error(read + d@),
                    ),
                },
            }),
            old(self).control_read() matches Some((c, _)) ==> (event matches Event::ReadFailed(m)
                ==> final(self).failed_settings_read(
                old(self).settings_read_failure,
                c.failure_text(m@),
            )),
            // opening our control stream and writing our settings
            old(self).phase is OpenControl && event is UniOpened ==> (final(self).phase matches ServerPhase::SendSettings(w)
                && writes_to(action, Stream::UniSend) && writes_our_settings(started_writes(action, w))),
            old(self).phase is OpenControl ==> (event matches Event::OpenUniFailed(m)
                ==> final(self).failed_write(m@)),
            old(self).phase matches ServerPhase::SendSettings(w) ==> (event is Written ==> if w.remaining().len() == 0 {
                final(self).request_read() == Some((FrameRead::initial(), Seq::<u8>::empty()))
                    && action == Action::Read(Stream::BiRecv, 1)
            } else {
                final(self).phase matches ServerPhase::SendSettings(w2) && continues_writes(
                    action,
                    Stream::UniSend,
                    w,
                    w2,
                )
            }),
            old(self).phase matches ServerPhase::SendSettings(w) ==> (event matches Event::WriteFailed(m)
                ==> final(self).failed_write(w.current.prefix() + m@)),
            // reading the CONNECT request, then writing the 200 response
            old(self).request_read() matches Some((r, read)) ==> (event matches Event::Data(d)
                ==> match r.outcome(d@) {
                FrameOutcome::More(r2) => final(self).request_read() == Some((r2, read + d@))
                    && action == Action::Read(Stream::BiRecv, r2.want() as usize),
                FrameOutcome::Frame(t, _) => if t != HEADERS_FRAME {
                    final(self).phase matches ServerPhase::Done(Err(ServerError::Connect(e)))
                        && e == unexpected_frame_error(t)
                } else if !request_decodes(read + d@) {
                    final(self).phase matches ServerPhase::Done(Err(ServerError::Connect(_)))
                } else {
                    final(self).phase matches ServerPhase::SendResponse(req, _, w)
                        && decoded_request_target(read + d@) == Some(request_target(req))
                        && writes_to(action, Stream::BiSend) && writes_ok_response(started_writes(action, w))
                },
            }),
            old(self).request_read() matches Some((r, _)) ==> (event matches Event::ReadFailed(m)
                ==> final(self).failed_read(r.failure_text(m@))),
            old(self).phase matches ServerPhase::SendResponse(req, resp, w) ==> (event is Written ==> if w.remaining().len() == 0 {
                final(self).phase == ServerPhase::Done(Ok((req, resp)))
            } else {
                final(self).phase matches ServerPhase::SendResponse(req2, resp2, w2) && req2 == req
                    && resp2 == resp && continues_writes(action, Stream::BiSend, w, w2)
            }),
            final(self).phase matches ServerPhase::SendResponse(_, resp, _) ==> response_status(resp)
                == 200 && response_protocol(resp) is None,
            old(self).phase matches ServerPhase::SendResponse(_, _, w) ==> (event matches Event::WriteFailed(m)
                ==> final(self).failed_write(w.current.prefix() + m@)),
    {
        let mut phase = ServerPhase::AcceptControl;
        std::mem::swap(&mut phase, &mut self.phase);
        match phase {
            ServerPhase::AcceptControl => match event {
                Event::UniAccepted => {
                    self.phase = ServerPhase::ControlType(VarintRead::First, Vec::new());
                    Action::Read(Stream::UniRecv, 1)
                },
                Event::AcceptUniFailed(e) => self.finish(Err(ServerError::Connection(e))),
                _ => {
                    // ruled out by `expects`
                    proof {
                        assert(false);
                    }
                    self.finish(Err(ServerError::Read(String::new())))
                },
            },
            ServerPhase::ControlType(v, read) => match event {
                Event::Data(d) => {
                    let mut read = read;
                    append_bytes(&mut read, d.as_slice());
                    match v.feed(d.as_slice()) {
                        Ok(VarintProgress::More(v2)) => {
                            let n = v2.wanted();
                            self.phase = ServerPhase::ControlType(v2, read);
                            Action::Read(Stream::UniRecv, n)
                        },
                        Ok(VarintProgress::Value(st)) => {
                            if st != CONTROL_STREAM as u64 {
                                self.finish(
                                    Err(
                                        ServerError::Settings(
                                            String::from_str("expected CONTROL stream"),
                                        ),
                                    ),
                                )
                            } else {
                                self.phase = ServerPhase::SettingsFrame(FrameRead::new(), read);
                                Action::Read(Stream::UniRecv, 1)
                            }
                        },
                        Err(m) => {
                            let e = self.settings_read_error(m);
                            self.finish(Err(e))
                        },
                    }
                },
                Event::ReadFailed(m) => {
                    let e = self.settings_read_error(FrameRead::new().read_failure(m));
                    self.finish(Err(e))
                },
                _ => {
                    // ruled out by `expects`
                    proof {
                        assert(false);
                    }
                    self.finish(Err(ServerError::Read(String::new())))
                },
            },
            ServerPhase::SettingsFrame(r, read) => match event {
                Event::Data(d) => {
                    let mut read = read;
                    append_bytes(&mut read, d.as_slice());
                    match r.feed(d) {
                        Ok(FrameProgress::More(r2)) => {
                            let n = r2.wanted();
                            self.phase = ServerPhase::SettingsFrame(r2, read);
                            Action::Read(Stream::UniRecv, n)
                        },
                        Ok(FrameProgress::Frame(t, _)) => match settings_from_stream(
                            t,
                            read.as_slice(),
                        ) {
                            Ok(s) => {
                                if webtransport_sessions(&s) == 0 {
                                    self.finish(
                                        Err(
                                            ServerError::Settings(
                                                String::from_str(
                                                    "peer does not support WebTransport",
                                                ),
                                            ),
                                        ),
                                    )
                                } else {
                                    self.phase = ServerPhase::OpenControl;
                                    Action::OpenUni
                                }
                            },
                            Err(m) => self.finish(Err(ServerError::Settings(m))),
                        },
                        Err(m) => {
                            let e = self.settings_read_error(m);
                            self.finish(Err(e))
                        },
                    }
                },
                Event::ReadFailed(m) => {
                    let e = self.settings_read_error(r.read_failure(m));
                    self.finish(Err(e))
                },
                _ => {
                    // ruled out by `expects`
                    proof {
                        assert(false);
                    }
                    self.finish(Err(ServerError::Read(String::new())))
                },
            },
            ServerPhase::OpenControl => match event {
                Event::UniOpened => {
                    let (w, bytes) = start_settings_writes();
                    self.phase = ServerPhase::SendSettings(w);
                    Action::Write(Stream::UniSend, bytes)
                },
                Event::OpenUniFailed(m) => self.finish(Err(ServerError::Write(m))),
                _ => {
                    // ruled out by `expects`
                    proof {
                        assert(false);
                    }
                    self.finish(Err(ServerError::Read(String::new())))
                },
            },
            ServerPhase::SendSettings(w) => match event {
                Event::Written => match next_write(w) {
                    Some((w2, bytes)) => {
                        self.phase = ServerPhase::SendSettings(w2);
                        Action::Write(Stream::UniSend, bytes)
                    },
                    None => {
                        self.phase = ServerPhase::RequestFrame(FrameRead::new(), Vec::new());
                        Action::Read(Stream::BiRecv, 1)
                    },
                },
                Event::WriteFailed(m) => {
                    let msg = w.current.failure(m);
                    self.finish(Err(ServerError::Write(msg)))
                },
                _ => {
                    // ruled out by `expects`
                    proof {
                        assert(false);
                    }
                    self.finish(Err(ServerError::Read(String::new())))
                },
            },
            ServerPhase::RequestFrame(r, read) => match event {
                Event::Data(d) => {
                    let mut read = read;
                    append_bytes(&mut read, d.as_slice());
                    match r.feed(d) {
                        Ok(FrameProgress::More(r2)) => {
                            let n = r2.wanted();
                            self.phase = ServerPhase::RequestFrame(r2, read);
                            Action::Read(Stream::BiRecv, n)
                        },
                        Ok(FrameProgress::Frame(t, _)) => match request_from_frame(
                            t,
                            read.as_slice(),
                        ) {
                            Ok(req) => match start_response_writes() {
                                Ok((w, bytes)) => {
                                    self.phase = ServerPhase::SendResponse(req, ok_response(), w);
                                    Action::Write(Stream::BiSend, bytes)
                                },
                                Err(e) => self.finish(Err(e)),
                            },
                            Err(e) => self.finish(Err(e)),
                        },
                        Err(m) => self.finish(Err(ServerError::Read(m))),
                    }
                },
                Event::ReadFailed(m) => self.finish(Err(ServerError::Read(r.read_failure(m)))),
                _ => {
                    // ruled out by `expects`
                    proof {
                        assert(false);
                    }
                    self.finish(Err(ServerError::Read(String::new())))
                },
            },
            ServerPhase::SendResponse(req, resp, w) => match event {
                Event::Written => match next_write(w) {
                    Some((w2, bytes)) => {
                        self.phase = ServerPhase::SendResponse(req, resp, w2);
                        Action::Write(Stream::BiSend, bytes)
                    },
                    None => self.finish(Ok((req, resp))),
                },
                Event::WriteFailed(m) => {
                    let msg = w.current.failure(m);
                    self.finish(Err(ServerError::Write(msg)))
                },
                _ => {
                    // ruled out by `expects`
                    proof {
                        assert(false);
                    }
                    self.finish(Err(ServerError::Read(String::new())))
                },
            },
            ServerPhase::Done(r) => {
                // ruled out by `expects`
                proof {
                    assert(false);
                }
                self.finish(r)
            },
        }
    }

    fn finish(&mut self, r: Result<(ConnectRequest, ConnectResponse), ServerError>) -> (action:
        Action)
        ensures
            final(self).phase == ServerPhase::Done(r),
            final(self).settings_read_failure == old(self).settings_read_failure,
            action is Finish,
    {
        self.phase = ServerPhase::Done(r);
        Action::Finish
    }
}

} // verus!

verus! {

// ---------------------------------------------------------------------------
// Client side
// ---------------------------------------------------------------------------

/// Where the client side of a handshake stands. Each phase before the end
/// holds the CONNECT request to send.
#[derive(Debug)]
pub enum ClientPhase {
    /// Waiting for our control stream to open.
    OpenControl(ConnectRequest),
    /// Writing our settings: the writes left.
    SendSettings(Writes, ConnectRequest),
    /// Waiting for the server's control stream.
    AcceptControl(ConnectRequest),
    /// Reading the type of the server's unidirectional stream; the bytes read so far.
    ControlType(VarintRead, Vec<u8>, ConnectRequest),
    /// Reading the server's SETTINGS frame; the stream's bytes read so far.
    SettingsFrame(FrameRead, Vec<u8>, ConnectRequest),
    /// Writing the CONNECT request: the writes left.
    SendRequest(Writes, ConnectRequest),
    /// Reading the response; the frame's bytes read so far.
    ResponseFrame(FrameRead, Vec<u8>, ConnectRequest),
    /// Over.
    Done(Result<(ConnectRequest, ConnectResponse), ClientError>),
}

/// The client side of the SETTINGS exchange and CONNECT handshake on a QUIC
/// connection whose bidirectional stream the driver opened.
#[derive(Debug)]
pub struct ClientHandshake {
    pub phase: ClientPhase,
}

impl ClientHandshake {
    pub open spec fn wf(self) -> bool {
        match self.phase {
            ClientPhase::ControlType(v, _, _) => v.wf(),
            ClientPhase::SettingsFrame(r, _, _) => r.wf(),
            ClientPhase::ResponseFrame(r, _, _) => r.wf(),
            _ => true,
        }
    }

    /// The events that can answer the action last asked for.
    pub open spec fn expects(self, event: Event) -> bool {
        match self.phase {
            ClientPhase::OpenControl(_) => event is UniOpened || event is OpenUniFailed,
            ClientPhase::SendSettings(_, _) => event is Written || event is WriteFailed,
            ClientPhase::AcceptControl(_) => event is UniAccepted || event is AcceptUniFailed,
            ClientPhase::ControlType(v, _, _) => (event matches Event::Data(d) && d@.len()
                == v.want()) || event is ReadFailed,
            ClientPhase::SettingsFrame(r, _, _) => (event matches Event::Data(d) && d@.len()
                == r.want()) || event is ReadFailed,
            ClientPhase::SendRequest(_, _) => event is Written || event is WriteFailed,
            ClientPhase::ResponseFrame(r, _, _) => (event matches Event::Data(d) && d@.len()
                == r.want()) || event is ReadFailed,
            ClientPhase::Done(_) => false,
        }
    }

    /// Where the reading of the server's control stream stands, while it is
    /// read: the read, the stream's bytes read so far, and the request to
    /// send afterwards.
    pub open spec fn control_read(self) -> Option<(ControlRead, Seq<u8>, ConnectRequest)> {
        match self.phase {
            ClientPhase::ControlType(v, b, req) => Some((ControlRead::StreamType(v), b@, req)),
            ClientPhase::SettingsFrame(r, b, req) => Some((ControlRead::Settings(r), b@, req)),
            _ => None,
        }
    }

    /// Where the reading of the response stands, while it is read: the read,
    /// the frame's bytes read so far, and the request that was sent.
    pub open spec fn response_read(self) -> Option<(FrameRead, Seq<u8>, ConnectRequest)> {
        match self.phase {
            ClientPhase::ResponseFrame(r, b, req) => Some((r, b@, req)),
            _ => None,
        }
    }

    /// The handshake ended with a failure of the SETTINGS exchange with this message.
    pub open spec fn failed_settings(self, m: Seq<char>) -> bool {
        self.phase matches ClientPhase::Done(Err(ClientError::Settings(s))) && s@ == m
    }

    /// The handshake ended with a read failure with this message.
    pub open spec fn failed_read(self, m: Seq<char>) -> bool {
        self.phase matches ClientPhase::Done(Err(ClientError::Read(s))) && s@ == m
    }

    /// The handshake ended with a write failure with this message.
    pub open spec fn failed_write(self, m: Seq<char>) -> bool {
        self.phase matches ClientPhase::Done(Err(ClientError::Write(s))) && s@ == m
    }

    /// A new handshake that will ask for a session at `url`; it first opens
    /// our control stream.
    pub fn start(url: &Url) -> (r: (ClientHandshake, Action))
        ensures
            r.0.phase == ClientPhase::OpenControl(request_for_url(*url)),
            r.1 is OpenUni,
            r.0.wf(),
            forall|e: Event| answers(r.1, e) <==> #[trigger] r.0.expects(e),
    {
        let req = connect_request_for(url);
        (ClientHandshake { phase: ClientPhase::OpenControl(req) }, Action::OpenUni)
    }

    /// Whether `event` answers the action last asked for.
    pub fn accepts(&self, event: &Event) -> (r: bool)
        ensures
            r == self.expects(*event),
    {
        match (&self.phase, event) {
            (ClientPhase::OpenControl(_), Event::UniOpened) => true,
            (ClientPhase::OpenControl(_), Event::OpenUniFailed(_)) => true,
            (ClientPhase::SendSettings(_, _), Event::Written) => true,
            (ClientPhase::SendSettings(_, _), Event::WriteFailed(_)) => true,
            (ClientPhase::AcceptControl(_), Event::UniAccepted) => true,
            (ClientPhase::AcceptControl(_), Event::AcceptUniFailed(_)) => true,
            (ClientPhase::ControlType(v, _, _), Event::Data(d)) => d.len() == v.wanted(),
            (ClientPhase::ControlType(_, _, _), Event::ReadFailed(_)) => true,
            (ClientPhase::SettingsFrame(r, _, _), Event::Data(d)) => d.len() == r.wanted(),
            (ClientPhase::SettingsFrame(_, _, _), Event::ReadFailed(_)) => true,
            (ClientPhase::SendRequest(_, _), Event::Written) => true,
            (ClientPhase::SendRequest(_, _), Event::WriteFailed(_)) => true,
            (ClientPhase::ResponseFrame(r, _, _), Event::Data(d)) => d.len() == r.wanted(),
            (ClientPhase::ResponseFrame(_, _, _), Event::ReadFailed(_)) => true,
            _ => false,
        }
    }

    /// Whether the handshake is over.
    pub fn is_done(&self) -> (r: bool)
        ensures
            r == self.phase is Done,
    {
        match self.phase {
            ClientPhase::Done(_) => true,
            _ => false,
        }
    }

    /// The outcome of a finished handshake: the request and the response, or
    /// why it failed.
    pub fn into_result(self) -> (r: Result<(ConnectRequest, ConnectResponse), ClientError>)
        requires
            self.phase is Done,
        ensures
            self.phase == ClientPhase::Done(r),
    {
        match self.phase {
            ClientPhase::Done(r) => r,
            _ => {
                // ruled out by the precondition
                proof {
                    assert(false);
                }
                Err(ClientError::Read(String::new()))
            },
        }
    }

    /// Takes in what came of the last action and says what to do next.
    ///
    /// In order: open our control stream and write our settings; accept the
    /// server's control stream, read its stream type (it must be the control
    /// stream) and its SETTINGS frame (the server must support WebTransport);
    /// write the CONNECT request (a HEADERS frame) on the bidirectional
    /// stream; read the response. A failure while reading the server's
    /// settings is a SETTINGS failure; a failed write, or a request that does
    /// not encode, is a write failure; a failure while reading the response,
    /// or a response that is not a HEADERS frame or does not decode, is a read
    /// failure. A frame goes out as three writes (its type, its length, its
    /// payload), the control stream type in a write before them, and a failed
    /// write says which of them it carried.
    pub fn step(&mut self, event: Event) -> (action: Action)
        requires
            old(self).wf(),
            old(self).expects(event),
        ensures
            final(self).wf(),
            forall|e: Event| answers(action, e) <==> #[trigger] final(self).expects(e),
            action is Finish <==> final(self).phase is Done,
            // opening our control stream and writing our settings
            old(self).phase matches ClientPhase::OpenControl(req) ==> (event is UniOpened ==> (
            final(self).phase matches ClientPhase::SendSettings(w, req2) && req2 == req
                && writes_to(action, Stream::UniSend) && writes_our_settings(started_writes(action, w)))),
            old(self).phase is OpenControl ==> (event matches Event::OpenUniFailed(m)
                ==> final(self).failed_write(m@)),
            old(self).phase matches ClientPhase::SendSettings(w, req) ==> (event is Written ==> if w.remaining().len() == 0 {
                final(self).phase == ClientPhase::AcceptControl(req) && action is AcceptUni
            } else {
                final(self).phase matches ClientPhase::SendSettings(w2, req2) && req2 == req
                    && continues_writes(action, Stream::UniSend, w, w2)
            }),
            old(self).phase matches ClientPhase::SendSettings(w, _) ==> (event matches Event::WriteFailed(m)
                ==> final(self).failed_write(w.current.prefix() + m@)),
            // accepting the server's control stream
            old(self).phase matches ClientPhase::AcceptControl(req) ==> (event is UniAccepted ==> (
            final(self).control_read() == Some((ControlRead::initial(), Seq::<u8>::empty(), req))
                && action == Action::Read(Stream::UniRecv, 1))),
            old(self).phase is AcceptControl ==> (event matches Event::AcceptUniFailed(e)
                ==> final(self).phase == ClientPhase::Done(Err(ClientError::Connection(e)))),
            // reading the server's control stream, then writing the request
            old(self).control_read() matches Some((c, read, req)) ==> (event matches Event::Data(d)
                ==> match c.outcome(read, d@) {
                ControlStep::More(c2) => final(self).control_read() == Some((c2, read + d@, req))
                    && action == Action::Read(Stream::UniRecv, c2.want() as usize),
                ControlStep::Verdict(v) => match v {
                    PeerSettings::Supported(_) => if request_encodes(req) {
                        final(self).phase matches ClientPhase::SendRequest(w, req2) && req2 == req
                            && writes_to(action, Stream::BiSend) && writes_request(
                            started_writes(action, w),
                            req,
                        )
                    } else {
                        final(self).failed_write(request_encode_error(req))
                    },
                    PeerSettings::NotControl => final(self).failed_settings(
                        "expected CONTROL stream"@,
                    ),
                    PeerSettings::NotSettings => final(self).failed_settings(
                        "expected SETTINGS frame"@,
                    ),
                    PeerSettings::Unsupported => final(self).failed_settings(
                        "server does not support WebTransport"@,
                    ),
                    PeerSettings::Undecodable => final(self).failed_settings(
                        settings_decode_error(read + d@),
                    ),
                },
            }),
            old(self).control_read() matches Some((c, _, _)) ==> (event matches Event::ReadFailed(m)
                ==> final(self).failed_settings(c.failure_text(m@))),
            // writing the request
            old(self).phase matches ClientPhase::SendRequest(w, req) ==> (event is Written ==> if w.remaining().len() == 0 {
                final(self).response_read() == Some((FrameRead::initial(), Seq::<u8>::empty(), req))
                    && action == Action::Read(Stream::BiRecv, 1)
            } else {
                final(self).phase matches ClientPhase::SendRequest(w2, req2) && req2 == req
                    && continues_writes(action, Stream::BiSend, w, w2)
            }),
            old(self).phase matches ClientPhase::SendRequest(w, _) ==> (event matches Event::WriteFailed(m)
                ==> final(self).failed_write(w.current.prefix() + m@)),
            // reading the response
            old(self).response_read() matches Some((r, read, req)) ==> (event matches Event::Data(d)
                ==> match r.outcome(d@) {
                FrameOutcome::More(r2) => final(self).response_read() == Some((r2, read + d@, req))
                    && action == Action::Read(Stream::BiRecv, r2.want() as usize),
                FrameOutcome::Frame(t, _) => if t != HEADERS_FRAME {
                    final(self).failed_read("expected HEADERS frame, got "@ + decimal(t as nat))
                } else if !response_decodes(read + d@) {
                    final(self).failed_read(response_decode_error(read + d@))
                } else {
                    final(self).phase matches ClientPhase::Done(Ok((req2, resp))) && req2 == req
                        && decoded_response(read + d@) == Some(resp) && 200 <= response_status(resp)
                        < 300
                },
            }),
            old(self).response_read() matches Some((r, _, _)) ==> (event matches Event::ReadFailed(m)
                ==> final(self).failed_read(r.failure_text(m@))),
    {
        let mut phase = ClientPhase::Done(Err(ClientError::Read(String::new())));
        std::mem::swap(&mut phase, &mut self.phase);
        match phase {
            ClientPhase::OpenControl(req) => match event {
                Event::UniOpened => {
                    let (w, bytes) = start_settings_writes();
                    self.phase = ClientPhase::SendSettings(w, req);
                    Action::Write(Stream::UniSend, bytes)
                },
                Event::OpenUniFailed(m) => self.finish(Err(ClientError::Write(m))),
                _ => {
                    // ruled out by `expects`
                    proof {
                        assert(false);
                    }
                    self.finish(Err(ClientError::Read(String::new())))
                },
            },
            ClientPhase::SendSettings(w, req) => match event {
                Event::Written => match next_write(w) {
                    Some((w2, bytes)) => {
                        self.phase = ClientPhase::SendSettings(w2, req);
                        Action::Write(Stream::UniSend, bytes)
                    },
                    None => {
                        self.phase = ClientPhase::AcceptControl(req);
                        Action::AcceptUni
                    },
                },
                Event::WriteFailed(m) => {
                    let msg = w.current.failure(m);
                    self.finish(Err(ClientError::Write(msg)))
                },
                _ => {
                    // ruled out by `expects`
                    proof {
                        assert(false);
                    }
                    self.finish(Err(ClientError::Read(String::new())))
                },
            },
            ClientPhase::AcceptControl(req) => match event {
                Event::UniAccepted => {
                    self.phase = ClientPhase::ControlType(VarintRead::First, Vec::new(), req);
                    Action::Read(Stream::UniRecv, 1)
                },
                Event::AcceptUniFailed(e) => self.finish(Err(ClientError::Connection(e))),
                _ => {
                    // ruled out by `expects`
                    proof {
                        assert(false);
                    }
                    self.finish(Err(ClientError::Read(String::new())))
                },
            },
            ClientPhase::ControlType(v, read, req) => match event {
                Event::Data(d) => {
                    let mut read = read;
                    append_bytes(&mut read, d.as_slice());
                    match v.feed(d.as_slice()) {
                        Ok(VarintProgress::More(v2)) => {
                            let n = v2.wanted();
                            self.phase = ClientPhase::ControlType(v2, read, req);
                            Action::Read(Stream::UniRecv, n)
                        },
                        Ok(VarintProgress::Value(st)) => {
                            if st != CONTROL_STREAM as u64 {
                                self.finish(
                                    Err(
                                        ClientError::Settings(
                                            String::from_str("expected CONTROL stream"),
                                        ),
                                    ),
                                )
                            } else {
                                self.phase = ClientPhase::SettingsFrame(FrameRead::new(), read, req);
                                Action::Read(Stream::UniRecv, 1)
                            }
                        },
                        Err(m) => self.finish(Err(ClientError::Settings(m))),
                    }
                },
                Event::ReadFailed(m) => self.finish(
                    Err(ClientError::Settings(FrameRead::new().read_failure(m))),
                ),
                _ => {
                    // ruled out by `expects`
                    proof {
                        assert(false);
                    }
                    self.finish(Err(ClientError::Read(String::new())))
                },
            },
            ClientPhase::SettingsFrame(r, read, req) => match event {
                Event::Data(d) => {
                    let mut read = read;
                    append_bytes(&mut read, d.as_slice());
                    match r.feed(d) {
                        Ok(FrameProgress::More(r2)) => {
                            let n = r2.wanted();
                            self.phase = ClientPhase::SettingsFrame(r2, read, req);
                            Action::Read(Stream::UniRecv, n)
                        },
                        Ok(FrameProgress::Frame(t, _)) => match settings_from_stream(
                            t,
                            read.as_slice(),
                        ) {
                            Ok(s) => {
                                if webtransport_sessions(&s) == 0 {
                                    self.finish(
                                        Err(
                                            ClientError::Settings(
                                                String::from_str(
                                                    "server does not support WebTransport",
                                                ),
                                            ),
                                        ),
                                    )
                                } else {
                                    match start_request_writes(&req) {
                                        Ok((w, bytes)) => {
                                            self.phase = ClientPhase::SendRequest(w, req);
                                            Action::Write(Stream::BiSend, bytes)
                                        },
                                        Err(m) => self.finish(Err(ClientError::Write(m))),
                                    }
                                }
                            },
                            Err(m) => self.finish(Err(ClientError::Settings(m))),
                        },
                        Err(m) => self.finish(Err(ClientError::Settings(m))),
                    }
                },
                Event::ReadFailed(m) => self.finish(Err(ClientError::Settings(r.read_failure(m)))),
                _ => {
                    // ruled out by `expects`
                    proof {
                        assert(false);
                    }
                    self.finish(Err(ClientError::Read(String::new())))
                },
            },
            ClientPhase::SendRequest(w, req) => match event {
                Event::Written => match next_write(w) {
                    Some((w2, bytes)) => {
                        self.phase = ClientPhase::SendRequest(w2, req);
                        Action::Write(Stream::BiSend, bytes)
                    },
                    None => {
                        self.phase = ClientPhase::ResponseFrame(FrameRead::new(), Vec::new(), req);
                        Action::Read(Stream::BiRecv, 1)
                    },
                },
                Event::WriteFailed(m) => {
                    let msg = w.current.failure(m);
                    self.finish(Err(ClientError::Write(msg)))
                },
                _ => {
                    // ruled out by `expects`
                    proof {
                        assert(false);
                    }
                    self.finish(Err(ClientError::Read(String::new())))
                },
            },
            ClientPhase::ResponseFrame(r, read, req) => match event {
                Event::Data(d) => {
                    let mut read = read;
                    append_bytes(&mut read, d.as_slice());
                    match r.feed(d) {
                        Ok(FrameProgress::More(r2)) => {
                            let n = r2.wanted();
                            self.phase = ClientPhase::ResponseFrame(r2, read, req);
                            Action::Read(Stream::BiRecv, n)
                        },
                        Ok(FrameProgress::Frame(t, _)) => match response_from_frame(
                            t,
                            read.as_slice(),
                        ) {
                            Ok(resp) => self.finish(Ok((req, resp))),
                            Err(m) => self.finish(Err(ClientError::Read(m))),
                        },
                        Err(m) => self.finish(Err(ClientError::Read(m))),
                    }
                },
                Event::ReadFailed(m) => self.finish(Err(ClientError::Read(r.read_failure(m)))),
                _ => {
                    // ruled out by `expects`
                    proof {
                        assert(false);
                    }
                    self.finish(Err(ClientError::Read(String::new())))
                },
            },
            ClientPhase::Done(r) => {
                // ruled out by `expects`
                proof {
                    assert(false);
                }
                self.finish(r)
            },
        }
    }

    fn finish(&mut self, r: Result<(ConnectRequest, ConnectResponse), ClientError>) -> (action:
        Action)
        ensures
            final(self).phase == ClientPhase::Done(r),
            action is Finish,
    {
        self.phase = ClientPhase::Done(r);
        Action::Finish
    }
}

} // verus!
