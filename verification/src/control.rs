//! The start of an HTTP/3 control stream as WebTransport uses it: the stream
//! type, then a SETTINGS frame. What a handshake concludes from what it reads
//! there, and the proof that each side accepts what the other side writes.
use vstd::prelude::*;
use crate::frame::{
    frame_bytes, lemma_frame_read_any_encoding, lemma_frame_roundtrip, lemma_run_frame_fuel,
    lemma_varint_read, run_frame, FrameOutcome, FrameRead, VarintProgress, VarintRead,
};
use crate::settings::{
    carries_our_settings, decoded_settings, entry_bytes, lemma_entry_bytes_len,
    lemma_our_settings_supported, lists_entries, our_settings_map, settings_stream_bytes,
    webtransport_support, SettingEntry, CONTROL_STREAM, SETTINGS_FRAME,
};
use crate::varint::{is_varint, lemma_varint_roundtrip, varint_encoding, varint_value};

verus! {

/// What a handshake concludes from the start of its peer's control stream.
#[derive(Debug)]
pub enum PeerSettings {
    /// The stream is not a control stream.
    NotControl,
    /// The first frame is not a SETTINGS frame.
    NotSettings,
    /// `Settings::decode` refuses the stream's bytes.
    Undecodable,
    /// The settings do not enable WebTransport.
    Unsupported,
    /// The settings enable WebTransport for this many sessions.
    Supported(u64),
}

/// The verdict on a control stream whose first frame has type `t`, where
/// `stream` holds the stream's bytes up to the end of that frame.
pub open spec fn settings_verdict(t: u64, stream: Seq<u8>) -> PeerSettings {
    if t != SETTINGS_FRAME {
        PeerSettings::NotSettings
    } else {
        match decoded_settings(stream) {
            None => PeerSettings::Undecodable,
            Some(m) => if webtransport_support(m) == 0 {
                PeerSettings::Unsupported
            } else {
                PeerSettings::Supported(webtransport_support(m))
            },
        }
    }
}

/// Where the reading of a peer's control stream stands: reading the stream
/// type, or reading the first frame.
#[derive(Clone, Copy, Debug)]
pub enum ControlRead {
    StreamType(VarintRead),
    Settings(FrameRead),
}

/// What reading a control stream gives after one chunk of bytes.
pub enum ControlStep {
    More(ControlRead),
    Verdict(PeerSettings),
}

impl ControlRead {
    /// A fresh read, waiting for the first byte of the stream type.
    pub open spec fn initial() -> ControlRead {
        ControlRead::StreamType(VarintRead::First)
    }

    /// How many bytes this read waits for.
    pub open spec fn want(self) -> nat {
        match self {
            ControlRead::StreamType(v) => v.want(),
            ControlRead::Settings(r) => r.want(),
        }
    }

    /// The message of a read that failed with `detail` in this state.
    pub open spec fn failure_text(self, detail: Seq<char>) -> Seq<char> {
        match self {
            ControlRead::StreamType(_) => "read varint: "@ + detail,
            ControlRead::Settings(r) => r.failure_text(detail),
        }
    }

    /// What the read becomes once `data` (of the wanted length) arrived after
    /// the bytes `read`: a stream type other than the control stream's ends
    /// it; a stream type that is the control stream's moves on to the first
    /// frame; the first frame ends it with the verdict on everything read.
    pub open spec fn outcome(self, read: Seq<u8>, data: Seq<u8>) -> ControlStep {
        match self {
            ControlRead::StreamType(v) => match v.outcome(data) {
                VarintProgress::More(v2) => ControlStep::More(ControlRead::StreamType(v2)),
                VarintProgress::Value(st) => if st != CONTROL_STREAM {
                    ControlStep::Verdict(PeerSettings::NotControl)
                } else {
                    ControlStep::More(ControlRead::Settings(FrameRead::initial()))
                },
            },
            ControlRead::Settings(r) => match r.outcome(data) {
                FrameOutcome::More(r2) => ControlStep::More(ControlRead::Settings(r2)),
                FrameOutcome::Frame(t, _) => ControlStep::Verdict(settings_verdict(t, read + data)),
            },
        }
    }
}

/// Reads the start of a control stream out of `input`, after the bytes `read`,
/// by handing the read `c` the chunks it asks for, at most `fuel` times: the
/// verdict, or `None` when the input ran out first.
pub open spec fn run_control(c: ControlRead, read: Seq<u8>, input: Seq<u8>, fuel: nat) -> Option<
    PeerSettings,
>
    decreases fuel,
{
    if fuel == 0 {
        None
    } else {
        let n = c.want();
        if input.len() < n {
            None
        } else {
            match c.outcome(read, input.take(n as int)) {
                ControlStep::Verdict(v) => Some(v),
                ControlStep::More(c2) => run_control(
                    c2,
                    read + input.take(n as int),
                    input.skip(n as int),
                    (fuel - 1) as nat,
                ),
            }
        }
    }
}

/// A finished frame read takes no more bytes than it was given.
proof fn lemma_run_frame_within(r: FrameRead, input: Seq<u8>, fuel: nat)
    ensures
        run_frame(r, input, fuel) matches Some((_, _, c)) ==> c <= input.len(),
    decreases fuel,
{
    if fuel > 0 {
        let n = r.want();
        if input.len() >= n {
            if let FrameOutcome::More(r2) = r.outcome(input.take(n as int)) {
                lemma_run_frame_within(r2, input.skip(n as int), (fuel - 1) as nat);
            }
        }
    }
}

/// Reading the first frame of a control stream reaches the verdict on the
/// frame that `run_frame` reads, over all the bytes read up to its end.
proof fn lemma_run_control_frame(r: FrameRead, read: Seq<u8>, input: Seq<u8>, fuel: nat)
    ensures
        run_control(ControlRead::Settings(r), read, input, fuel) == match run_frame(r, input, fuel) {
            Some((t, _, n)) => Some(settings_verdict(t, read + input.take(n as int))),
            None => None,
        },
    decreases fuel,
{
    if fuel > 0 {
        let n = r.want();
        if input.len() >= n {
            if let FrameOutcome::More(r2) = r.outcome(input.take(n as int)) {
                let rest = input.skip(n as int);
                lemma_run_control_frame(r2, read + input.take(n as int), rest, (fuel - 1) as nat);
                lemma_run_frame_within(r2, rest, (fuel - 1) as nat);
                if let Some((t, p, c)) = run_frame(r2, rest, (fuel - 1) as nat) {
                    assert(read + input.take(n as int) + rest.take(c as int) =~= read
                        + input.take((c + n) as int));
                }
            }
        }
    }
}

/// The control stream that either side writes is accepted by the other side:
/// whatever follows the settings on the stream, reading it as the handshakes
/// read it gives a SETTINGS frame that enables WebTransport for one session.
pub proof fn lemma_settings_exchange(b: Seq<u8>, rest: Seq<u8>)
    requires
        carries_our_settings(b),
    ensures
        run_control(ControlRead::initial(), Seq::empty(), b + rest, 6) == Some(
            PeerSettings::Supported(1),
        ),
{
    lemma_our_settings_supported();
    let m = our_settings_map();
    let e = choose|e: Seq<SettingEntry>|
        lists_entries(e, m) && b == settings_stream_bytes(#[trigger] entry_bytes(e));
    assert forall|i: int| 0 <= i < e.len() implies (#[trigger] e[i]).0 < 0x4000_0000_0000_0000
        && e[i].1 < 0x4000_0000_0000_0000 by {
        assert(m.contains_key(e[i].0));
    }
    lemma_entry_bytes_len(e);
    let pairs = entry_bytes(e);
    let frame = frame_bytes(SETTINGS_FRAME as u64, pairs);
    let input = b + rest;
    lemma_varint_roundtrip(CONTROL_STREAM as nat);
    assert(varint_encoding(0) == seq![0u8]) by {
        reveal_with_fuel(crate::varint::be_bytes, 2);
    }
    assert(input =~= seq![0u8] + (frame + rest));
    assert(input.take(1) =~= seq![0u8]);
    assert(crate::varint::varint_value(seq![0u8]) == 0) by {
        assert(seq![(0u8 % 64) as u8] + seq![0u8].drop_first() =~= seq![0u8]);
        reveal_with_fuel(crate::varint::be_value, 2);
        assert(seq![0u8].drop_last() =~= Seq::<u8>::empty());
    }
    assert(ControlRead::initial().outcome(Seq::empty(), input.take(1)) == ControlStep::More(
        ControlRead::Settings(FrameRead::initial()),
    ));
    assert(input.skip(1) =~= frame + rest);
    lemma_frame_roundtrip(SETTINGS_FRAME as u64, pairs, rest);
    lemma_run_control_frame(FrameRead::initial(), Seq::empty() + input.take(1), frame + rest, 5);
    assert(Seq::empty() + input.take(1) + (frame + rest).take(frame.len() as int) =~= b);
}


/// Reading a control stream whose stream type, SETTINGS frame type and
/// payload length are written in any valid encodings, whatever follows the
/// frame: a peer whose settings allow any non-zero number of sessions is
/// accepted with that number, one whose settings allow none is refused as
/// not supporting WebTransport, and settings that do not decode are refused
/// as such.
pub proof fn lemma_control_stream_verdict(
    es: Seq<u8>,
    et: Seq<u8>,
    el: Seq<u8>,
    pairs: Seq<u8>,
    rest: Seq<u8>,
)
    requires
        is_varint(es),
        varint_value(es) == CONTROL_STREAM,
        is_varint(et),
        varint_value(et) == SETTINGS_FRAME,
        is_varint(el),
        varint_value(el) == pairs.len(),
        pairs.len() <= usize::MAX,
    ensures
        decoded_settings(es + et + el + pairs) matches Some(m) ==> (webtransport_support(m) != 0
            ==> run_control(ControlRead::initial(), Seq::empty(), es + et + el + pairs + rest, 7)
            == Some(PeerSettings::Supported(webtransport_support(m)))),
        decoded_settings(es + et + el + pairs) matches Some(m) ==> (webtransport_support(m) == 0
            ==> run_control(ControlRead::initial(), Seq::empty(), es + et + el + pairs + rest, 7)
            == Some(PeerSettings::Unsupported)),
        decoded_settings(es + et + el + pairs) is None ==> run_control(
            ControlRead::initial(),
            Seq::empty(),
            es + et + el + pairs + rest,
            7,
        ) == Some(PeerSettings::Undecodable),
{
    let b = es + et + el + pairs;
    let input = b + rest;
    let frame_in = et + el + pairs + rest;
    assert(input =~= es + frame_in);
    lemma_varint_read(es);
    lemma_frame_read_any_encoding(et, el, pairs, rest);
    let fr = FrameRead::initial();
    let flen = et.len() + el.len() + pairs.len();
    assert(frame_in.take(flen as int) =~= et + el + pairs);
    let settings = ControlRead::Settings(fr);
    if es.len() == 1 {
        assert(input.take(1) =~= es);
        assert(input.skip(1) =~= frame_in);
        assert(ControlRead::initial().outcome(Seq::empty(), input.take(1)) == ControlStep::More(
            settings,
        ));
        lemma_run_frame_fuel(fr, frame_in, 5, 6);
        lemma_run_control_frame(fr, Seq::empty() + input.take(1), frame_in, 6);
        assert(Seq::empty() + input.take(1) + frame_in.take(flen as int) =~= b);
    } else {
        let n = es.len();
        let mid = ControlRead::StreamType(VarintRead::Rest(es[0]));
        assert(input.take(1) =~= es.take(1));
        assert(ControlRead::initial().outcome(Seq::empty(), input.take(1)) == ControlStep::More(
            mid,
        ));
        let after = input.skip(1);
        assert(after =~= es.drop_first() + frame_in);
        assert(after.take((n - 1) as int) =~= es.drop_first());
        assert(after.skip((n - 1) as int) =~= frame_in);
        assert(mid.want() == n - 1);
        assert(mid.outcome(Seq::empty() + input.take(1), after.take((n - 1) as int))
            == ControlStep::More(settings));
        let read = Seq::empty() + input.take(1) + after.take((n - 1) as int);
        assert(read =~= es);
        lemma_run_control_frame(fr, read, frame_in, 5);
        assert(read + frame_in.take(flen as int) =~= b);
        assert(run_control(mid, Seq::empty() + input.take(1), after, 6) == run_control(
            settings,
            read,
            frame_in,
            5,
        ));
    }
}
} // verus!
