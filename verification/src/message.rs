//! The WebTransport CONNECT request and its response, each an HTTP/3 HEADERS
//! frame on the session's bidirectional stream. `web_transport_proto` encodes
//! and decodes the whole frame.
use bytes::BytesMut;
use url::Url;
use vstd::prelude::*;
use web_transport_proto::{
    ConnectError, ConnectRequest, ConnectResponse, Frame, VarInt, VarIntBoundsExceeded,
};
use crate::error::ServerError;
use crate::frame::{frame_bytes, lemma_frame_roundtrip, run_frame, FrameRead};
use crate::varint::varint_limit;

verus! {

#[verifier::external_type_specification]
#[verifier::external_body]
pub struct ExConnectRequest(ConnectRequest);

#[verifier::external_type_specification]
#[verifier::external_body]
pub struct ExConnectResponse(ConnectResponse);

#[verifier::external_type_specification]
#[verifier::external_body]
pub struct ExUrl(Url);

#[verifier::external_type_specification]
#[verifier::external_body]
pub struct ExVarIntBoundsExceeded(VarIntBoundsExceeded);

/// What `ConnectRequest::decode` makes of a buffer (a HEADERS frame), as far
/// as the bytes alone decide it: the URL (from `:scheme`, `:authority` and
/// `:path`) and the offered subprotocols of the request it reads, or `None`
/// where it fails. (The other headers it keeps are copied in the order of a
/// hash map, so they are left out.)
pub uninterp spec fn decoded_request_target(frame: Seq<u8>) -> Option<(Url, Seq<Seq<char>>)>;

/// Whether `ConnectRequest::decode` accepts a buffer.
pub open spec fn request_decodes(frame: Seq<u8>) -> bool {
    decoded_request_target(frame) is Some
}

/// The URL of a request, its `url` field.
pub uninterp spec fn request_url(req: ConnectRequest) -> Url;

/// The subprotocols a request offers, its `protocols` field.
pub uninterp spec fn request_protocols(req: ConnectRequest) -> Seq<Seq<char>>;

/// The URL and the offered subprotocols of a request.
pub open spec fn request_target(req: ConnectRequest) -> (Url, Seq<Seq<char>>) {
    (request_url(req), request_protocols(req))
}

/// The subprotocol a response selects, its `protocol` field.
pub uninterp spec fn response_protocol(resp: ConnectResponse) -> Option<Seq<char>>;

/// What `ConnectResponse::decode` makes of a buffer (a HEADERS frame): the
/// response it reads, or the text of the error with which it refuses the
/// buffer. It reads the status and the selected protocol by name, so the
/// result depends on the bytes alone.
pub uninterp spec fn response_decode(frame: Seq<u8>) -> Result<ConnectResponse, Seq<char>>;

/// The response `ConnectResponse::decode` reads from a buffer, or `None`.
pub open spec fn decoded_response(frame: Seq<u8>) -> Option<ConnectResponse> {
    match response_decode(frame) {
        Ok(x) => Some(x),
        Err(_) => None,
    }
}

/// The text of the error with which `ConnectResponse::decode` refuses a buffer.
pub open spec fn response_decode_error(frame: Seq<u8>) -> Seq<char> {
    match response_decode(frame) {
        Ok(_) => Seq::empty(),
        Err(t) => t,
    }
}

/// What `ConnectRequest::encode` makes of a request, as far as the order in
/// which it writes the field lines does not matter: the length of the QPACK
/// field section, and what `ConnectRequest::decode` reads back from the
/// HEADERS frame (the URL and offered subprotocols, or `None` where it
/// refuses the frame); or the text of the error with which the encoder
/// refuses the request (a header value that is not text, a subprotocol it
/// cannot list, field lines beyond the field-section limit). Each field line
/// is encoded on its own, the decoder looks the fields up by name, and the
/// encoder's checks do not depend on the order, so all of it is the same in
/// every order.
pub uninterp spec fn request_encoding(req: ConnectRequest) -> Result<
    (nat, Option<(Url, Seq<Seq<char>>)>),
    Seq<char>,
>;

/// The length of the field section `ConnectRequest::encode` writes for `req`.
pub open spec fn request_encoding_len(req: ConnectRequest) -> Option<nat> {
    match request_encoding(req) {
        Ok((n, _)) => Some(n),
        Err(_) => None,
    }
}

/// What `ConnectRequest::decode` reads back from the frame that
/// `ConnectRequest::encode` writes for `req`.
pub open spec fn request_read_back(req: ConnectRequest) -> Option<(Url, Seq<Seq<char>>)> {
    match request_encoding(req) {
        Ok((_, t)) => t,
        Err(_) => None,
    }
}

/// The text of the error with which `ConnectRequest::encode` refuses `req`.
pub open spec fn request_encode_error(req: ConnectRequest) -> Seq<char> {
    match request_encoding(req) {
        Ok(_) => Seq::empty(),
        Err(t) => t,
    }
}

/// Whether `ConnectRequest::encode` succeeds on a request.
pub open spec fn request_encodes(req: ConnectRequest) -> bool {
    request_encoding(req) is Ok
}

/// The status code of a response, `resp.status.as_u16()`.
pub uninterp spec fn response_status(resp: ConnectResponse) -> u16;

/// What `ConnectRequest::new` makes of a URL.
pub uninterp spec fn request_for_url(url: Url) -> ConnectRequest;

/// The `ConnectError::UnexpectedFrame` error for a frame of type `typ`.
pub uninterp spec fn unexpected_frame_error(typ: u64) -> ConnectError;

/// Whether `ConnectResponse::decode` accepts a buffer.
pub open spec fn response_decodes(frame: Seq<u8>) -> bool {
    decoded_response(frame) is Some
}

/// The frame type of a HEADERS frame.
pub const HEADERS_FRAME: u32 = 0x01;

/// `b` is a HEADERS frame whose payload (a QPACK field section) fits the
/// 16 KiB limit on CONNECT field sections.
pub open spec fn is_headers_frame(b: Seq<u8>) -> bool {
    exists|p: Seq<u8>| p.len() <= 16384 && b == #[trigger] frame_bytes(HEADERS_FRAME as u64, p)
}

/// `b` is the HEADERS frame of the request `req`: its payload has the length
/// of the request's field section, and `ConnectRequest::decode` reads from it
/// what it reads back from any encoding of `req`.
pub open spec fn carries_request(b: Seq<u8>, req: ConnectRequest) -> bool {
    &&& exists|p: Seq<u8>|
        p.len() <= 16384 && request_encoding_len(req) == Some(p.len()) && b == #[trigger] frame_bytes(
            HEADERS_FRAME as u64,
            p,
        )
    &&& decoded_request_target(b) == request_read_back(req)
}

/// `b` is a HEADERS frame from which `ConnectResponse::decode` reads a
/// response with status 200.
pub open spec fn accepted_response_frame(b: Seq<u8>) -> bool {
    &&& is_headers_frame(b)
    &&& decoded_response(b) matches Some(x) && response_status(x) == 200
}

/// `ConnectRequest::decode` on a byte slice: a request whose URL and offered
/// subprotocols are those `decoded_request_target` names, or an error exactly
/// where that is `None`.
#[verifier::external_body]
fn decode_connect_request(frame: &[u8]) -> (r: Result<ConnectRequest, ConnectError>)
    ensures
        r is Ok <==> decoded_request_target(frame@) is Some,
        r matches Ok(x) ==> decoded_request_target(frame@) == Some(
            (request_url(x), request_protocols(x)),
        ),
{
    let mut buf: &[u8] = frame;
    ConnectRequest::decode(&mut buf)
}

/// `ConnectResponse::decode` on a byte slice, its error turned into its
/// text; both are those `response_decode` names. It refuses a status outside
/// 200..=299.
#[verifier::external_body]
fn decode_connect_response(frame: &[u8]) -> (r: Result<ConnectResponse, String>)
    ensures
        match r {
            Ok(x) => (response_decode(frame@) matches Ok(y) && y == x),
            Err(m) => (response_decode(frame@) matches Err(t) && t == m@),
        },
        r matches Ok(x) ==> 200 <= response_status(x) < 300,
{
    let mut buf: &[u8] = frame;
    match ConnectResponse::decode(&mut buf) {
        Ok(x) => Ok(x),
        Err(e) => Err(e.to_string()),
    }
}

/// `ConnectRequest::new` for (a copy of) `url`: the request named
/// `request_for_url`, whose URL is `url` and which offers no subprotocol.
#[verifier::external_body]
pub(crate) fn connect_request_for(url: &Url) -> (r: ConnectRequest)
    ensures
        r == request_for_url(*url),
        request_url(r) == *url,
        request_protocols(r) == Seq::<Seq<char>>::empty(),
{
    ConnectRequest::new(url.clone())
}

/// `ConnectResponse::OK`, the 200 response, which selects no subprotocol.
#[verifier::external_body]
pub(crate) fn ok_response() -> (r: ConnectResponse)
    ensures
        response_status(r) == 200,
        response_protocol(r) is None,
{
    ConnectResponse::OK
}

/// `ConnectRequest::encode` into a fresh buffer: a HEADERS frame (the type,
/// the length, the QPACK field section, which the encoder refuses beyond
/// 16 KiB of field lines), exactly where `request_encodes` holds, with a
/// payload of the length `request_encoding` names, from which
/// `ConnectRequest::decode` reads what `request_encoding` names. The field
/// lines come in the order of a hash map, so the payload's bytes are left
/// unsaid. The encoder's error is turned into its text.
#[verifier::external_body]
fn encode_connect_request(req: &ConnectRequest) -> (r: Result<Vec<u8>, String>)
    ensures
        r is Ok <==> request_encoding(*req) is Ok,
        r matches Ok(b) ==> carries_request(b@, *req),
        r matches Err(m) ==> (request_encoding(*req) matches Err(t) && t == m@),
{
    let mut buf = BytesMut::new();
    match req.encode(&mut buf) {
        Ok(()) => Ok(buf.to_vec()),
        Err(e) => Err(e.to_string()),
    }
}

/// `ConnectResponse::OK.encode` into a fresh buffer: the two field lines of
/// the 200 response (`:status` and the draft header) fit the field-section
/// limit, so it succeeds, with a HEADERS frame from which
/// `ConnectResponse::decode` reads back a response with status 200 (it looks
/// the fields up by name, so their order does not matter).
#[verifier::external_body]
fn encode_ok_response() -> (r: Result<Vec<u8>, ConnectError>)
    ensures
        r is Ok,
        r matches Ok(b) ==> accepted_response_frame(b@),
{
    let mut buf = BytesMut::new();
    match ConnectResponse::OK.encode(&mut buf) {
        Ok(()) => Ok(buf.to_vec()),
        Err(e) => Err(e),
    }
}

/// `ConnectError::UnexpectedFrame` for a frame of type `typ`; building the
/// frame type (`VarInt::from_u64`) fails exactly when `typ` is 2^62 or more;
/// the error built is the one named `unexpected_frame_error`.
#[verifier::external_body]
fn unexpected_frame(typ: u64) -> (r: Result<ConnectError, VarIntBoundsExceeded>)
    ensures
        r is Ok <==> typ < varint_limit(),
        r matches Ok(e) ==> e == unexpected_frame_error(typ),
{
    match VarInt::from_u64(typ) {
        Ok(v) => Ok(ConnectError::UnexpectedFrame(Frame(v))),
        Err(e) => Err(e),
    }
}

/// The character of the decimal digit `d`.
pub open spec fn digit_char(d: nat) -> char {
    if d == 0 {
        '0'
    } else if d == 1 {
        '1'
    } else if d == 2 {
        '2'
    } else if d == 3 {
        '3'
    } else if d == 4 {
        '4'
    } else if d == 5 {
        '5'
    } else if d == 6 {
        '6'
    } else if d == 7 {
        '7'
    } else if d == 8 {
        '8'
    } else {
        '9'
    }
}

/// `n` written in decimal, as `{:?}` writes a varint.
pub open spec fn decimal(n: nat) -> Seq<char>
    decreases n,
{
    if n < 10 {
        seq![digit_char(n)]
    } else {
        decimal(n / 10) + seq![digit_char(n % 10)]
    }
}

fn digit_str(d: u64) -> (s: &'static str)
    requires
        d < 10,
    ensures
        s@ == seq![digit_char(d as nat)],
{
    proof {
        reveal_strlit("0");
        reveal_strlit("1");
        reveal_strlit("2");
        reveal_strlit("3");
        reveal_strlit("4");
        reveal_strlit("5");
        reveal_strlit("6");
        reveal_strlit("7");
        reveal_strlit("8");
        reveal_strlit("9");
    }
    match d {
        0 => "0",
        1 => "1",
        2 => "2",
        3 => "3",
        4 => "4",
        5 => "5",
        6 => "6",
        7 => "7",
        8 => "8",
        _ => "9",
    }
}

/// `n` written in decimal.
pub fn decimal_text(n: u64) -> (s: String)
    ensures
        s@ == decimal(n as nat),
{
    let mut s = String::from_str(digit_str(n % 10));
    let mut m: u64 = n / 10;
    while m > 0
        invariant
            m > 0 ==> decimal(n as nat) == decimal(m as nat) + s@,
            m == 0 ==> s@ == decimal(n as nat),
        decreases m,
    {
        let d = String::from_str(digit_str(m % 10));
        proof {
            if m >= 10 {
                assert(decimal(m as nat) == decimal((m / 10) as nat) + seq![digit_char((m % 10) as nat)]);
            } else {
                assert(decimal(m as nat) == seq![digit_char(m as nat)]);
            }
        }
        s = d.concat(s.as_str());
        m = m / 10;
    }
    s
}

/// The CONNECT request in a frame of type `typ` whose bytes are `frame`, as a
/// server reads it: refused with an unexpected-frame error unless it is a
/// HEADERS frame, and with the decoder's error unless `ConnectRequest::decode`
/// accepts the frame; the request returned has the URL and subprotocols that
/// the frame's bytes give.
pub fn request_from_frame(typ: u64, frame: &[u8]) -> (r: Result<ConnectRequest, ServerError>)
    requires
        typ < varint_limit(),
    ensures
        typ != HEADERS_FRAME ==> (r matches Err(ServerError::Connect(e)) && e
            == unexpected_frame_error(typ)),
        typ == HEADERS_FRAME ==> (r is Ok <==> request_decodes(frame@)),
        r matches Ok(req) ==> decoded_request_target(frame@) == Some(request_target(req)),
        r is Err ==> r matches Err(ServerError::Connect(_)),
{
    if typ != HEADERS_FRAME as u64 {
        return match unexpected_frame(typ) {
            Ok(e) => Err(ServerError::Connect(e)),
            Err(_) => {
                // ruled out by the precondition
                proof {
                    assert(false);
                }
                Err(ServerError::Read(String::new()))
            },
        };
    }
    match decode_connect_request(frame) {
        Ok(req) => Ok(req),
        Err(e) => Err(ServerError::Connect(e)),
    }
}

/// The CONNECT response in a frame of type `typ` whose bytes are `frame`, as a
/// client reads it: refused unless it is a HEADERS frame that
/// `ConnectResponse::decode` accepts.
pub fn response_from_frame(typ: u64, frame: &[u8]) -> (r: Result<ConnectResponse, String>)
    ensures
        typ != HEADERS_FRAME ==> (r matches Err(m) && m@ == "expected HEADERS frame, got "@
            + decimal(typ as nat)),
        typ == HEADERS_FRAME ==> (r is Ok <==> response_decodes(frame@)),
        r matches Ok(x) ==> decoded_response(frame@) == Some(x),
        r matches Ok(x) ==> 200 <= response_status(x) < 300,
        typ == HEADERS_FRAME ==> (r matches Err(m) ==> m@ == response_decode_error(frame@)),
{
    if typ != HEADERS_FRAME as u64 {
        return Err(String::from_str("expected HEADERS frame, got ").concat(
            decimal_text(typ).as_str(),
        ));
    }
    decode_connect_response(frame)
}

/// The HEADERS frame of the 200 response.
pub fn ok_response_frame() -> (r: Result<Vec<u8>, ServerError>)
    ensures
        r matches Ok(b) && accepted_response_frame(b@),
{
    match encode_ok_response() {
        Ok(b) => Ok(b),
        Err(e) => Err(ServerError::Connect(e)),
    }
}

/// The HEADERS frame of the request `req`, or the text of the encoder's error.
pub fn request_frame(req: &ConnectRequest) -> (r: Result<Vec<u8>, String>)
    ensures
        r is Ok <==> request_encodes(*req),
        r matches Ok(b) ==> carries_request(b@, *req),
        r matches Err(m) ==> m@ == request_encode_error(*req),
{
    encode_connect_request(req)
}

/// A HEADERS frame that either side writes is read back by the other side,
/// whatever follows it, as a HEADERS frame made of exactly its bytes: the
/// request is then decoded from the bytes the client wrote, and the 200
/// response from the bytes the server wrote.
pub proof fn lemma_headers_exchange(b: Seq<u8>, rest: Seq<u8>)
    requires
        is_headers_frame(b),
    ensures
        run_frame(FrameRead::initial(), b + rest, 5) matches Some((t, _, n)) && t
            == HEADERS_FRAME && n == b.len() && (b + rest).take(n as int) == b,
{
    let p = choose|p: Seq<u8>| p.len() <= 16384 && b == #[trigger] frame_bytes(HEADERS_FRAME as u64, p);
    lemma_frame_roundtrip(HEADERS_FRAME as u64, p, rest);
    assert((b + rest).take(b.len() as int) =~= b);
}

/// The server reads the request frame the client writes back, whatever
/// follows it, as a HEADERS frame made of exactly its bytes, so what it
/// decodes from them is what `ConnectRequest::decode` reads back from an
/// encoding of `req`: the same URL and offered subprotocols, or a refusal.
pub proof fn lemma_request_exchange(b: Seq<u8>, req: ConnectRequest, rest: Seq<u8>)
    requires
        carries_request(b, req),
    ensures
        run_frame(FrameRead::initial(), b + rest, 5) matches Some((t, p, n)) && t
            == HEADERS_FRAME && n == b.len() && (b + rest).take(n as int) == b && request_encoding_len(req)
            == Some(p.len()),
        decoded_request_target(b.add(rest).take(b.len() as int)) == request_read_back(req),
{
    let p = choose|p: Seq<u8>|
        p.len() <= 16384 && request_encoding_len(req) == Some(p.len()) && b == #[trigger] frame_bytes(
            HEADERS_FRAME as u64,
            p,
        );
    lemma_frame_roundtrip(HEADERS_FRAME as u64, p, rest);
    assert((b + rest).take(b.len() as int) =~= b);
}

/// The client accepts the 200 response the server writes: reading it back,
/// whatever follows it, gives a HEADERS frame made of exactly its bytes, from
/// which `ConnectResponse::decode` reads a response with status 200.
pub proof fn lemma_response_exchange(b: Seq<u8>, rest: Seq<u8>)
    requires
        accepted_response_frame(b),
    ensures
        run_frame(FrameRead::initial(), b + rest, 5) matches Some((t, _, n)) && t
            == HEADERS_FRAME && (decoded_response((b + rest).take(n as int)) matches Some(x)
            && response_status(x) == 200),
{
    lemma_headers_exchange(b, rest);
}

} // verus!
