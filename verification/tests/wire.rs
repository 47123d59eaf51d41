use compio_wt::frame::{FrameProgress, FrameRead, VarintProgress, VarintRead};
use compio_wt::error::ServerError;
use compio_wt::message::{
    decimal_text, ok_response_frame, request_frame, request_from_frame, response_from_frame,
};
use web_transport_proto::{ConnectError, Frame, VarInt};
use compio_wt::settings::{our_settings, our_settings_stream, settings_from_stream, webtransport_sessions};
use compio_wt::varint::{varint_from_parts, varint_len};

/// The shortest QUIC encoding of `v`.
fn varint(v: u64) -> Vec<u8> {
    if v < 64 {
        vec![v as u8]
    } else if v < 1 << 14 {
        (0x4000u16 | v as u16).to_be_bytes().to_vec()
    } else if v < 1 << 30 {
        (0x8000_0000u32 | v as u32).to_be_bytes().to_vec()
    } else {
        (0xc000_0000_0000_0000u64 | v).to_be_bytes().to_vec()
    }
}

/// A frame of type `typ` carrying `payload`.
fn frame(typ: u64, payload: &[u8]) -> Vec<u8> {
    let mut out = varint(typ);
    out.extend(varint(payload.len() as u64));
    out.extend_from_slice(payload);
    out
}

/// Reads a whole frame by handing the reader the chunks it asks for.
fn read_frame(input: &[u8]) -> (u64, Vec<u8>, usize) {
    let mut r = FrameRead::new();
    let mut pos = 0;
    loop {
        let n = r.wanted();
        let chunk = input[pos..pos + n].to_vec();
        pos += n;
        match r.feed(chunk).unwrap() {
            FrameProgress::More(next) => r = next,
            FrameProgress::Frame(t, p) => return (t, p, pos),
        }
    }
}

#[test]
fn varint_lengths_from_first_byte() {
    assert_eq!(varint_len(0x00), 1);
    assert_eq!(varint_len(0x3f), 1);
    assert_eq!(varint_len(0x40), 2);
    assert_eq!(varint_len(0x7f), 2);
    assert_eq!(varint_len(0x80), 4);
    assert_eq!(varint_len(0xbf), 4);
    assert_eq!(varint_len(0xc0), 8);
    assert_eq!(varint_len(0xff), 8);
}

#[test]
fn varint_decodes_rfc_examples() {
    // RFC 9000, appendix A.1
    assert_eq!(varint_from_parts(0x25, &[]).unwrap(), 37);
    assert_eq!(varint_from_parts(0x40, &[0x25]).unwrap(), 37);
    assert_eq!(varint_from_parts(0x7b, &[0xbd]).unwrap(), 15293);
    assert_eq!(varint_from_parts(0x9d, &[0x7f, 0x3e, 0x7d]).unwrap(), 494878333);
    assert_eq!(
        varint_from_parts(0xc2, &[0x19, 0x7c, 0x5e, 0xff, 0x14, 0xe8, 0x8c]).unwrap(),
        151288809941952652
    );
}

#[test]
fn varint_reader_reads_in_two_steps() {
    let r = VarintRead::First;
    assert_eq!(r.wanted(), 1);
    let next = match r.feed(&[0x7b]).unwrap() {
        VarintProgress::More(next) => next,
        VarintProgress::Value(_) => panic!("a two-byte varint needs a second read"),
    };
    assert_eq!(next.wanted(), 1);
    assert!(matches!(next.feed(&[0xbd]).unwrap(), VarintProgress::Value(15293)));
    assert!(matches!(VarintRead::First.feed(&[0x04]).unwrap(), VarintProgress::Value(4)));
}

#[test]
fn varint_roundtrip_through_reader() {
    for v in [0u64, 1, 63, 64, 16383, 16384, 0x3fff_ffff, 0x4000_0000, u32::MAX as u64, (1 << 62) - 1] {
        let bytes = varint(v);
        let mut r = VarintRead::First;
        let mut pos = 0;
        let value = loop {
            let n = r.wanted();
            match r.feed(&bytes[pos..pos + n]).unwrap() {
                VarintProgress::More(next) => r = next,
                VarintProgress::Value(x) => break x,
            }
            pos += n;
        };
        assert_eq!(value, v);
        assert_eq!(bytes.len(), varint_len(bytes[0]));
    }
}

#[test]
fn frame_roundtrip_through_reader() {
    let payload: Vec<u8> = (0..200).map(|i| i as u8).collect();
    let mut bytes = frame(0x01, &payload);
    let len = bytes.len();
    bytes.extend_from_slice(b"trailing");
    let (t, p, used) = read_frame(&bytes);
    assert_eq!(t, 1);
    assert_eq!(p, payload);
    assert_eq!(used, len);
}

#[test]
fn wide_frame_type_roundtrip() {
    let bytes = frame(1 << 40, &[7]);
    assert_eq!(read_frame(&bytes), (1 << 40, vec![7], bytes.len()));
}

#[test]
fn empty_frame_roundtrip() {
    let bytes = frame(0x21, &[]);
    assert_eq!(bytes, vec![0x21, 0x00]);
    let (t, p, used) = read_frame(&bytes);
    assert_eq!((t, p, used), (0x21, vec![], 2));
}

#[test]
fn read_failure_messages() {
    let r = FrameRead::new();
    assert_eq!(r.read_failure("eof".to_string()), "read varint: eof");
    let payload = match r.feed(vec![0x01]).unwrap() {
        FrameProgress::More(next) => match next.feed(vec![0x02]).unwrap() {
            FrameProgress::More(p) => p,
            _ => panic!("expected the payload stage"),
        },
        _ => panic!("expected the length stage"),
    };
    assert_eq!(payload.wanted(), 2);
    assert_eq!(payload.read_failure("eof".to_string()), "frame payload: eof");
}

#[test]
fn our_settings_support_one_session() {
    let s = our_settings();
    assert_eq!(webtransport_sessions(&s), 1);
}

#[test]
fn our_control_stream_is_a_standard_settings_frame() {
    let stream = our_settings_stream();
    // the stream type, then one SETTINGS frame whose payload is the pairs
    assert_eq!(stream[0], 0x00);
    let (t, pairs, used) = read_frame(&stream[1..]);
    assert_eq!(t, 4);
    assert_eq!(used, stream.len() - 1);
    // the payload is 7 identifier/value pairs, each two varints
    let mut pos = 0;
    let mut ids = Vec::new();
    while pos < pairs.len() {
        let n = varint_len(pairs[pos]);
        let id = varint_from_parts(pairs[pos], &pairs[pos + 1..pos + n]).unwrap();
        pos += n;
        let m = varint_len(pairs[pos]);
        varint_from_parts(pairs[pos], &pairs[pos + 1..pos + m]).unwrap();
        pos += m;
        ids.push(id);
    }
    ids.sort();
    assert_eq!(ids, vec![0x6, 0x8, 0x33, 0xFFD277, 0x2b603742, 0x2b603743, 0xc671706a]);
    let s = settings_from_stream(t, &stream).unwrap();
    assert_eq!(webtransport_sessions(&s), 1);
}

#[test]
fn a_standard_control_stream_is_read() {
    // ENABLE_DATAGRAM = 1, WEBTRANSPORT_MAX_SESSIONS = 3
    let mut pairs = varint(0x33);
    pairs.extend(varint(1));
    pairs.extend(varint(0xc671706a));
    pairs.extend(varint(3));
    let mut stream = vec![0x00];
    stream.extend(frame(0x04, &pairs));
    let s = settings_from_stream(4, &stream).unwrap();
    assert_eq!(webtransport_sessions(&s), 3);
}

#[test]
fn settings_stream_errors() {
    let stream = our_settings_stream();
    assert_eq!(settings_from_stream(0x01, &stream).unwrap_err(), "expected SETTINGS frame");
    assert!(settings_from_stream(0x04, &[]).is_err());
}

#[test]
fn empty_settings_do_not_support_webtransport() {
    let s = settings_from_stream(0x04, &[0x00, 0x04, 0x00]).unwrap();
    assert_eq!(webtransport_sessions(&s), 0);
}

#[test]
fn decimal_text_writes_digits() {
    assert_eq!(decimal_text(0), "0");
    assert_eq!(decimal_text(7), "7");
    assert_eq!(decimal_text(10), "10");
    assert_eq!(decimal_text(1234567890), "1234567890");
    assert_eq!(decimal_text(u64::MAX), "18446744073709551615");
}

#[test]
fn ok_response_is_one_headers_frame_that_decodes() {
    let bytes = ok_response_frame().unwrap();
    let (t, _, used) = read_frame(&bytes);
    assert_eq!(t, 1);
    assert_eq!(used, bytes.len());
    let resp = response_from_frame(t, &bytes).unwrap();
    assert_eq!(resp.status, 200);
    assert!(resp.protocol.is_none());
}

#[test]
fn request_in_a_non_headers_frame_is_an_unexpected_frame() {
    let bytes = frame(0x21, &[]);
    match request_from_frame(0x21, &bytes) {
        Err(ServerError::Connect(ConnectError::UnexpectedFrame(f))) => {
            assert_eq!(f, Frame(VarInt::from_u32(0x21)))
        }
        other => panic!("expected an unexpected-frame error, got {other:?}"),
    }
}

#[test]
fn request_of_a_url_round_trips_through_its_frame() {
    let url = url::Url::parse("https://example.com/wt?a=b").unwrap();
    let req = web_transport_proto::ConnectRequest::new(url);
    let bytes = request_frame(&req).unwrap();
    let (t, _, used) = read_frame(&bytes);
    assert_eq!((t, used), (1, bytes.len()));
    let back = request_from_frame(t, &bytes).unwrap();
    assert_eq!(back.url.as_str(), "https://example.com/wt?a=b");
    assert!(back.protocols.is_empty());
}

#[test]
fn response_frame_of_wrong_type() {
    assert_eq!(
        response_from_frame(0x04, &[]).unwrap_err(),
        "expected HEADERS frame, got 4"
    );
    assert!(response_from_frame(0x01, &[]).is_err());
}

#[test]
fn offered_subprotocols_come_back_from_the_request_frame() {
    let url = url::Url::parse("https://example.com:4433/chat").unwrap();
    let req = web_transport_proto::ConnectRequest::new(url).with_protocol("chat-v1");
    let bytes = request_frame(&req).unwrap();
    let back = request_from_frame(1, &bytes).unwrap();
    assert_eq!(back.url.as_str(), "https://example.com:4433/chat");
    assert_eq!(back.protocols, vec!["chat-v1".to_string()]);
}
