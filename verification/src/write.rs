//! The writes that put a frame on a stream. A sender writes a frame's type,
//! its length and its payload one after the other, and a write that fails
//! says which of them it carried; on a control stream the stream type goes
//! before the SETTINGS frame, in a write of its own.
use vstd::prelude::*;
use web_transport_proto::ConnectRequest;
use crate::error::ServerError;
use crate::frame::frame_bytes;
use crate::message::{
    accepted_response_frame, carries_request, ok_response_frame, request_encode_error,
    request_encodes, request_frame, HEADERS_FRAME,
};
use crate::settings::{
    carries_our_settings, entry_bytes, lemma_entry_bytes_len, lemma_our_settings_supported,
    lists_entries, our_settings_map, our_settings_stream, settings_stream_bytes, SettingEntry,
    CONTROL_STREAM, SETTINGS_FRAME,
};
use crate::varint::{lemma_varint_roundtrip, varint_encoding, varint_len, varint_limit};

verus! {

/// What a write carries: the stream type (reported as is), or a frame's
/// type, length or payload.
#[derive(Clone, Copy, Debug, PartialEq, Eq, Structural)]
pub enum WriteLabel {
    Plain,
    FrameType,
    FrameLen,
    FramePayload,
}

impl WriteLabel {
    /// What the message of a failed write of this part starts with.
    pub open spec fn prefix(self) -> Seq<char> {
        match self {
            WriteLabel::Plain => Seq::empty(),
            WriteLabel::FrameType => "frame type: "@,
            WriteLabel::FrameLen => "frame len: "@,
            WriteLabel::FramePayload => "frame payload: "@,
        }
    }

    /// The message of a write of this part that failed with `detail`.
    pub fn failure(&self, detail: String) -> (m: String)
        ensures
            m@ == self.prefix() + detail@,
    {
        match self {
            WriteLabel::Plain => {
                assert(Seq::<char>::empty() + detail@ =~= detail@);
                detail
            },
            WriteLabel::FrameType => String::from_str("frame type: ").concat(detail.as_str()),
            WriteLabel::FrameLen => String::from_str("frame len: ").concat(detail.as_str()),
            WriteLabel::FramePayload => String::from_str("frame payload: ").concat(
                detail.as_str(),
            ),
        }
    }
}

/// One write: its bytes and what they carry.
#[derive(Debug)]
pub struct Piece {
    pub bytes: Vec<u8>,
    pub label: WriteLabel,
}

/// A write as the contracts speak of it.
pub type PlannedWrite = (Seq<u8>, WriteLabel);

impl View for Piece {
    type V = PlannedWrite;

    open spec fn view(&self) -> PlannedWrite {
        (self.bytes@, self.label)
    }
}

/// The writes of pieces, in order.
pub open spec fn planned(ps: Seq<Piece>) -> Seq<PlannedWrite> {
    ps.map_values(|p: Piece| p@)
}

/// The writes of a frame of type `typ` carrying `payload`: its type, its
/// length, its payload.
pub open spec fn frame_plan(typ: u64, payload: Seq<u8>) -> Seq<PlannedWrite> {
    seq![
        (varint_encoding(typ as nat), WriteLabel::FrameType),
        (varint_encoding((payload.len() as u32) as nat), WriteLabel::FrameLen),
        (payload, WriteLabel::FramePayload),
    ]
}

/// The writes that open a control stream carrying the settings pairs
/// `pairs`: the stream type, then the SETTINGS frame.
pub open spec fn control_plan(pairs: Seq<u8>) -> Seq<PlannedWrite> {
    seq![(varint_encoding(CONTROL_STREAM as nat), WriteLabel::Plain)] + frame_plan(
        SETTINGS_FRAME as u64,
        pairs,
    )
}

/// The bytes that a sequence of writes puts on the stream, one after the other.
pub open spec fn plan_bytes(plan: Seq<PlannedWrite>) -> Seq<u8>
    decreases plan.len(),
{
    if plan.len() == 0 {
        Seq::empty()
    } else {
        plan[0].0 + plan_bytes(plan.drop_first())
    }
}

/// The writes still to do after the one in flight, and what the one in
/// flight carries.
#[derive(Debug)]
pub struct Writes {
    pub rest: Vec<Piece>,
    pub current: WriteLabel,
}

impl Writes {
    /// The writes still to do.
    pub open spec fn remaining(self) -> Seq<PlannedWrite> {
        planned(self.rest@)
    }
}

/// Splits the bytes of a frame of type `typ` carrying `payload` into its
/// three writes.
pub(crate) fn frame_writes(b: Vec<u8>, Ghost(typ): Ghost<u64>, Ghost(payload): Ghost<Seq<u8>>) -> (ps:
    Vec<Piece>)
    requires
        typ < varint_limit(),
        payload.len() <= u32::MAX,
        b@ == frame_bytes(typ, payload),
    ensures
        planned(ps@) == frame_plan(typ, payload),
{
    let ghost et = varint_encoding(typ as nat);
    let ghost el = varint_encoding((payload.len() as u32) as nat);
    proof {
        lemma_varint_roundtrip(typ as nat);
        lemma_varint_roundtrip((payload.len() as u32) as nat);
        assert(b@ == et + el + payload);
        assert(b@[0] == et[0]);
    }
    let mut typ_bytes = b;
    let n1 = varint_len(typ_bytes[0]);
    let mut len_bytes = typ_bytes.split_off(n1);
    proof {
        assert(typ_bytes@ =~= et);
        assert(len_bytes@ =~= el + payload);
        assert(len_bytes@[0] == el[0]);
    }
    let n2 = varint_len(len_bytes[0]);
    let payload_bytes = len_bytes.split_off(n2);
    proof {
        assert(len_bytes@ =~= el);
        assert(payload_bytes@ =~= payload);
    }
    let mut ps: Vec<Piece> = Vec::new();
    ps.push(Piece { bytes: typ_bytes, label: WriteLabel::FrameType });
    ps.push(Piece { bytes: len_bytes, label: WriteLabel::FrameLen });
    ps.push(Piece { bytes: payload_bytes, label: WriteLabel::FramePayload });
    proof {
        assert(planned(ps@) =~= frame_plan(typ, payload));
    }
    ps
}

/// Splits the bytes that open a control stream carrying the settings pairs
/// `pairs` into the write of the stream type and the three writes of the
/// SETTINGS frame.
pub(crate) fn control_writes(b: Vec<u8>, Ghost(pairs): Ghost<Seq<u8>>) -> (ps: Vec<Piece>)
    requires
        pairs.len() <= u32::MAX,
        b@ == settings_stream_bytes(pairs),
    ensures
        planned(ps@) == control_plan(pairs),
{
    let ghost es = varint_encoding(CONTROL_STREAM as nat);
    proof {
        lemma_varint_roundtrip(CONTROL_STREAM as nat);
        assert(b@ == es + frame_bytes(SETTINGS_FRAME as u64, pairs));
    }
    let mut head = b;
    let frame = head.split_off(1);
    proof {
        assert(head@ =~= es);
        assert(frame@ =~= frame_bytes(SETTINGS_FRAME as u64, pairs));
    }
    let fs = frame_writes(frame, Ghost(SETTINGS_FRAME as u64), Ghost(pairs));
    let mut ps: Vec<Piece> = Vec::new();
    ps.push(Piece { bytes: head, label: WriteLabel::Plain });
    let mut fs = fs;
    ps.append(&mut fs);
    proof {
        assert(planned(ps@) =~= control_plan(pairs));
    }
    ps
}

/// Takes the first of the writes `ps` out: its bytes, and the writes left
/// with it in flight.
pub(crate) fn start_writes(ps: Vec<Piece>) -> (r: (Writes, Vec<u8>))
    requires
        ps@.len() > 0,
    ensures
        seq![(r.1@, r.0.current)] + r.0.remaining() == planned(ps@),
{
    let mut rest = ps;
    let first = rest.remove(0);
    let w = Writes { rest, current: first.label };
    proof {
        assert(seq![(first.bytes@, first.label)] + w.remaining() =~= planned(ps@));
    }
    (w, first.bytes)
}

/// Takes the next write out of `w`: its bytes, and the writes left with it
/// in flight; `None` when no write is left.
pub(crate) fn next_write(w: Writes) -> (r: Option<(Writes, Vec<u8>)>)
    ensures
        r is None <==> w.remaining().len() == 0,
        r matches Some((w2, b)) ==> (w2.remaining() == w.remaining().drop_first() && w2.current
            == w.remaining()[0].1 && b@ == w.remaining()[0].0),
{
    let mut rest = w.rest;
    if rest.len() == 0 {
        return None;
    }
    let first = rest.remove(0);
    let w2 = Writes { rest, current: first.label };
    proof {
        assert(w2.remaining() =~= w.remaining().drop_first());
    }
    Some((w2, first.bytes))
}

/// The writes that open a control stream with our settings.
pub open spec fn writes_our_settings(plan: Seq<PlannedWrite>) -> bool {
    &&& exists|pairs: Seq<u8>| plan == #[trigger] control_plan(pairs)
    &&& carries_our_settings(plan_bytes(plan))
}

/// The writes of the HEADERS frame of the 200 response.
pub open spec fn writes_ok_response(plan: Seq<PlannedWrite>) -> bool {
    &&& exists|p: Seq<u8>| plan == #[trigger] frame_plan(HEADERS_FRAME as u64, p)
    &&& accepted_response_frame(plan_bytes(plan))
}

/// The writes of the HEADERS frame of the request `req`.
pub open spec fn writes_request(plan: Seq<PlannedWrite>, req: ConnectRequest) -> bool {
    &&& exists|p: Seq<u8>| plan == #[trigger] frame_plan(HEADERS_FRAME as u64, p)
    &&& carries_request(plan_bytes(plan), req)
}

/// The first write that opens our control stream, and the writes after it.
pub fn start_settings_writes() -> (r: (Writes, Vec<u8>))
    ensures
        writes_our_settings(seq![(r.1@, r.0.current)] + r.0.remaining()),
{
    let b = our_settings_stream();
    let ghost m = our_settings_map();
    let ghost e = choose|e: Seq<SettingEntry>|
        lists_entries(e, m) && b@ == settings_stream_bytes(#[trigger] entry_bytes(e));
    let ghost pairs = entry_bytes(e);
    proof {
        lemma_our_settings_supported();
        assert forall|i: int| 0 <= i < e.len() implies (#[trigger] e[i]).0 < 0x4000_0000_0000_0000
            && e[i].1 < 0x4000_0000_0000_0000 by {
            assert(m.contains_key(e[i].0));
        }
        lemma_entry_bytes_len(e);
        lemma_control_plan_bytes(pairs);
    }
    let ps = control_writes(b, Ghost(pairs));
    start_writes(ps)
}

/// The first write of the 200 response frame, and the writes after it.
pub fn start_response_writes() -> (r: Result<(Writes, Vec<u8>), ServerError>)
    ensures
        r matches Ok((w, b)) && writes_ok_response(seq![(b@, w.current)] + w.remaining()),
{
    match ok_response_frame() {
        Ok(b) => {
            let ghost p = choose|p: Seq<u8>|
                p.len() <= 16384 && b@ == #[trigger] frame_bytes(HEADERS_FRAME as u64, p);
            proof {
                lemma_frame_plan_bytes(HEADERS_FRAME as u64, p);
            }
            let ps = frame_writes(b, Ghost(HEADERS_FRAME as u64), Ghost(p));
            Ok(start_writes(ps))
        },
        Err(e) => Err(e),
    }
}

/// The first write of the request frame of `req`, and the writes after it;
/// or the text of the encoder's error.
pub fn start_request_writes(req: &ConnectRequest) -> (r: Result<(Writes, Vec<u8>), String>)
    ensures
        r is Ok <==> request_encodes(*req),
        r matches Ok((w, b)) ==> writes_request(seq![(b@, w.current)] + w.remaining(), *req),
        r matches Err(m) ==> m@ == request_encode_error(*req),
{
    match request_frame(req) {
        Ok(b) => {
            let ghost p = choose|p: Seq<u8>|
                p.len() <= 16384 && crate::message::request_encoding_len(*req) == Some(p.len())
                    && b@ == #[trigger] frame_bytes(HEADERS_FRAME as u64, p);
            proof {
                lemma_frame_plan_bytes(HEADERS_FRAME as u64, p);
            }
            let ps = frame_writes(b, Ghost(HEADERS_FRAME as u64), Ghost(p));
            Ok(start_writes(ps))
        },
        Err(m) => Err(m),
    }
}

/// The writes of a frame put the frame's bytes on the stream.
pub proof fn lemma_frame_plan_bytes(typ: u64, payload: Seq<u8>)
    ensures
        plan_bytes(frame_plan(typ, payload)) == frame_bytes(typ, payload),
{
    let plan = frame_plan(typ, payload);
    let p1 = plan.drop_first();
    let p2 = p1.drop_first();
    let p3 = p2.drop_first();
    assert(p3 =~= Seq::<PlannedWrite>::empty());
    assert(plan_bytes(p3) == Seq::<u8>::empty());
    assert(p2[0].0 == payload);
    assert(plan_bytes(p2) =~= payload);
    assert(plan_bytes(p1) == p1[0].0 + plan_bytes(p2));
    assert(plan_bytes(plan) == plan[0].0 + plan_bytes(p1));
    assert(plan_bytes(plan) =~= frame_bytes(typ, payload));
}

/// The writes that open a control stream put the stream type and the
/// SETTINGS frame on it.
pub proof fn lemma_control_plan_bytes(pairs: Seq<u8>)
    ensures
        plan_bytes(control_plan(pairs)) == settings_stream_bytes(pairs),
{
    let plan = control_plan(pairs);
    assert(plan.drop_first() =~= frame_plan(SETTINGS_FRAME as u64, pairs));
    lemma_frame_plan_bytes(SETTINGS_FRAME as u64, pairs);
}

} // verus!
