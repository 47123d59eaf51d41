//! HTTP/3 frames on a stream: a varint type, a varint payload length, then the
//! payload. Reading is incremental: a reader asks for an exact number of bytes,
//! is handed them, and either asks for more or yields the frame. `frame_bytes`
//! states what a frame's bytes are, and a fresh reader reads them back.
use vstd::prelude::*;
use crate::varint::{
    is_varint, lemma_varint_roundtrip, lemma_varint_value_bound, lemma_varint_width, pow256,
    varint_encoding, varint_encoding_in, varint_from_parts, varint_len, varint_limit, varint_size,
    varint_value, varint_width,
};

verus! {

/// Where a varint read stands: waiting for its first byte, or for the bytes
/// that the first byte announced.
#[derive(Clone, Copy, Debug)]
pub enum VarintRead {
    First,
    Rest(u8),
}

/// What a varint read gives after one chunk of bytes.
#[derive(Clone, Copy, Debug)]
pub enum VarintProgress {
    More(VarintRead),
    Value(u64),
}

impl VarintRead {
    /// How many bytes this read waits for.
    pub open spec fn want(self) -> nat {
        match self {
            VarintRead::First => 1,
            VarintRead::Rest(f) => (varint_size(f) - 1) as nat,
        }
    }

    /// A read in this state can go on: a pending rest is never empty.
    pub open spec fn wf(self) -> bool {
        match self {
            VarintRead::First => true,
            VarintRead::Rest(f) => varint_size(f) > 1,
        }
    }

    /// What the read becomes once `data` (of the wanted length) arrived.
    pub open spec fn outcome(self, data: Seq<u8>) -> VarintProgress {
        match self {
            VarintRead::First => if varint_size(data[0]) == 1 {
                VarintProgress::Value(varint_value(data) as u64)
            } else {
                VarintProgress::More(VarintRead::Rest(data[0]))
            },
            VarintRead::Rest(f) => VarintProgress::Value(varint_value(seq![f] + data) as u64),
        }
    }

    /// How many bytes this read waits for.
    pub fn wanted(&self) -> (n: usize)
        ensures
            n == self.want(),
    {
        match self {
            VarintRead::First => 1,
            VarintRead::Rest(f) => varint_len(*f) - 1,
        }
    }

    /// Hands the read the bytes it waited for.
    pub fn feed(self, data: &[u8]) -> (r: Result<VarintProgress, String>)
        requires
            self.wf(),
            data@.len() == self.want(),
        ensures
            r == Ok::<VarintProgress, String>(self.outcome(data@)),
            r matches Ok(VarintProgress::More(n)) ==> n.wf(),
    {
        match self {
            VarintRead::First => {
                let first = data[0];
                if varint_len(first) == 1 {
                    let empty: Vec<u8> = Vec::new();
                    assert(seq![first] + empty@ =~= data@);
                    match varint_from_parts(first, empty.as_slice()) {
                        Ok(v) => Ok(VarintProgress::Value(v)),
                        Err(e) => Err(e),
                    }
                } else {
                    Ok(VarintProgress::More(VarintRead::Rest(first)))
                }
            },
            VarintRead::Rest(first) => match varint_from_parts(first, data) {
                Ok(v) => Ok(VarintProgress::Value(v)),
                Err(e) => Err(e),
            },
        }
    }
}

/// Where a frame read stands: reading the type, reading the length (the type
/// known), or reading the payload (type and length known).
#[derive(Clone, Copy, Debug)]
pub enum FrameRead {
    Type(VarintRead),
    Len(u64, VarintRead),
    Payload(u64, usize),
}

/// What a frame read gives after one chunk of bytes.
#[derive(Debug)]
pub enum FrameProgress {
    More(FrameRead),
    Frame(u64, Vec<u8>),
}

/// The mathematical form of `FrameProgress`.
pub enum FrameOutcome {
    More(FrameRead),
    Frame(u64, Seq<u8>),
}

impl View for FrameProgress {
    type V = FrameOutcome;

    open spec fn view(&self) -> FrameOutcome {
        match *self {
            FrameProgress::More(r) => FrameOutcome::More(r),
            FrameProgress::Frame(t, p) => FrameOutcome::Frame(t, p@),
        }
    }
}

impl FrameRead {
    /// A fresh read, waiting for the first byte of the frame type.
    pub open spec fn initial() -> FrameRead {
        FrameRead::Type(VarintRead::First)
    }

    pub open spec fn wf(self) -> bool {
        match self {
            FrameRead::Type(v) => v.wf(),
            FrameRead::Len(t, v) => v.wf() && t < varint_limit(),
            FrameRead::Payload(t, _) => t < varint_limit(),
        }
    }

    /// How many bytes this read waits for.
    pub open spec fn want(self) -> nat {
        match self {
            FrameRead::Type(v) => v.want(),
            FrameRead::Len(_, v) => v.want(),
            FrameRead::Payload(_, n) => n as nat,
        }
    }

    /// What the read becomes once `data` (of the wanted length) arrived.
    pub open spec fn outcome(self, data: Seq<u8>) -> FrameOutcome {
        match self {
            FrameRead::Type(v) => match v.outcome(data) {
                VarintProgress::More(v2) => FrameOutcome::More(FrameRead::Type(v2)),
                VarintProgress::Value(t) => FrameOutcome::More(
                    FrameRead::Len(t, VarintRead::First),
                ),
            },
            FrameRead::Len(t, v) => match v.outcome(data) {
                VarintProgress::More(v2) => FrameOutcome::More(FrameRead::Len(t, v2)),
                VarintProgress::Value(n) => FrameOutcome::More(FrameRead::Payload(t, n as usize)),
            },
            FrameRead::Payload(t, _) => FrameOutcome::Frame(t, data),
        }
    }

    /// The message of a read that failed with `detail` in this state.
    pub open spec fn failure_text(self, detail: Seq<char>) -> Seq<char> {
        match self {
            FrameRead::Payload(_, _) => "frame payload: "@ + detail,
            _ => "read varint: "@ + detail,
        }
    }

    /// A fresh read.
    pub fn new() -> (r: FrameRead)
        ensures
            r == FrameRead::initial(),
            r.wf(),
    {
        FrameRead::Type(VarintRead::First)
    }

    /// How many bytes this read waits for.
    pub fn wanted(&self) -> (n: usize)
        ensures
            n == self.want(),
    {
        match self {
            FrameRead::Type(v) => v.wanted(),
            FrameRead::Len(_, v) => v.wanted(),
            FrameRead::Payload(_, n) => *n,
        }
    }

    /// Hands the read the bytes it waited for.
    pub fn feed(self, data: Vec<u8>) -> (r: Result<FrameProgress, String>)
        requires
            self.wf(),
            data@.len() == self.want(),
        ensures
            r matches Ok(p) && p.view() == self.outcome(data@),
            r matches Ok(FrameProgress::More(n)) ==> n.wf(),
            r matches Ok(FrameProgress::Frame(t, _)) ==> t < varint_limit(),
    {
        match self {
            FrameRead::Type(v) => {
                proof {
                    match v {
                        VarintRead::Rest(f) => {
                            lemma_varint_value_bound(seq![f] + data@);
                        },
                        VarintRead::First => {
                            if varint_size(data@[0]) == 1 {
                                lemma_varint_value_bound(data@);
                            }
                        },
                    }
                }
                match v.feed(data.as_slice()) {
                    Ok(VarintProgress::More(v2)) => Ok(FrameProgress::More(FrameRead::Type(v2))),
                    Ok(VarintProgress::Value(t)) => Ok(
                        FrameProgress::More(FrameRead::Len(t, VarintRead::First)),
                    ),
                    Err(e) => Err(e),
                }
            },
            FrameRead::Len(t, v) => match v.feed(data.as_slice()) {
                Ok(VarintProgress::More(v2)) => Ok(FrameProgress::More(FrameRead::Len(t, v2))),
                Ok(VarintProgress::Value(n)) => Ok(
                    FrameProgress::More(FrameRead::Payload(t, n as usize)),
                ),
                Err(e) => Err(e),
            },
            FrameRead::Payload(t, _) => Ok(FrameProgress::Frame(t, data)),
        }
    }

    /// The message of a read that failed with `detail` in this state: a failed
    /// varint read or a failed payload read.
    pub fn read_failure(&self, detail: String) -> (m: String)
        ensures
            m@ == self.failure_text(detail@),
    {
        match self {
            FrameRead::Payload(_, _) => String::from_str("frame payload: ").concat(detail.as_str()),
            _ => String::from_str("read varint: ").concat(detail.as_str()),
        }
    }
}

/// Reads a whole frame out of `input` by handing the reader `r` the chunks it
/// asks for, at most `fuel` times: the type, the payload and how many bytes
/// were taken, or `None` when the input ran out first.
pub open spec fn run_frame(r: FrameRead, input: Seq<u8>, fuel: nat) -> Option<(u64, Seq<u8>, nat)>
    decreases fuel,
{
    if fuel == 0 {
        None
    } else {
        let n = r.want();
        if input.len() < n {
            None
        } else {
            match r.outcome(input.take(n as int)) {
                FrameOutcome::Frame(t, p) => Some((t, p, n)),
                FrameOutcome::More(r2) => match run_frame(r2, input.skip(n as int), (fuel - 1) as nat) {
                    Some((t, p, c)) => Some((t, p, c + n)),
                    None => None,
                },
            }
        }
    }
}

/// The bytes of a frame of type `typ` carrying `payload`; the length field
/// holds the payload length as a `u32`, as `web_transport_proto` writes it.
pub open spec fn frame_bytes(typ: u64, payload: Seq<u8>) -> Seq<u8> {
    varint_encoding(typ as nat) + varint_encoding((payload.len() as u32) as nat) + payload
}

// ---------------------------------------------------------------------------
// Reading back what was written
// ---------------------------------------------------------------------------

/// More fuel does not change a finished run.
pub(crate) proof fn lemma_run_frame_fuel(r: FrameRead, input: Seq<u8>, fuel: nat, more: nat)
    requires
        run_frame(r, input, fuel) is Some,
        fuel <= more,
    ensures
        run_frame(r, input, more) == run_frame(r, input, fuel),
    decreases fuel,
{
    let n = r.want();
    if let FrameOutcome::More(r2) = r.outcome(input.take(n as int)) {
        lemma_run_frame_fuel(r2, input.skip(n as int), (fuel - 1) as nat, (more - 1) as nat);
    }
}

/// A reader waiting for a varint (the type or the length of a frame) that is
/// handed the encoding of `v` followed by `tail` reaches the next stage after
/// taking exactly that encoding.
proof fn lemma_run_varint_stage(r: FrameRead, v: nat, tail: Seq<u8>, fuel: nat)
    requires
        r matches FrameRead::Type(VarintRead::First) || r matches FrameRead::Len(_, VarintRead::First),
        v < varint_limit(),
        fuel >= 2,
        run_frame(
            (match r {
                FrameRead::Type(_) => FrameRead::Len(v as u64, VarintRead::First),
                FrameRead::Len(t, _) => FrameRead::Payload(t, #[verifier::truncate] ((v as u64) as usize)),
                _ => r,
            }),
            tail,
            (fuel - 2) as nat,
        ) is Some,
    ensures
        ({
            let next = match r {
                FrameRead::Type(_) => FrameRead::Len(v as u64, VarintRead::First),
                FrameRead::Len(t, _) => FrameRead::Payload(t, #[verifier::truncate] ((v as u64) as usize)),
                _ => r,
            };
            let rest = run_frame(next, tail, (fuel - 2) as nat).unwrap();
            run_frame(r, varint_encoding(v) + tail, fuel) == Some(
                (rest.0, rest.1, rest.2 + varint_encoding(v).len()),
            )
        }),
{
    let next = match r {
        FrameRead::Type(_) => FrameRead::Len(v as u64, VarintRead::First),
        FrameRead::Len(t, _) => FrameRead::Payload(t, #[verifier::truncate] ((v as u64) as usize)),
        _ => r,
    };
    let e = varint_encoding(v);
    let input = e + tail;
    lemma_varint_roundtrip(v);
    let n = e.len();
    assert(input.take(1) =~= seq![e[0]]);
    assert(varint_value(seq![e[0]] + e.drop_first()) == v) by {
        assert(seq![e[0]] + e.drop_first() =~= e);
    }
    if n == 1 {
        assert(input.take(1) =~= e);
        assert(input.skip(1) =~= tail);
        assert(r.want() == 1);
        assert(r.outcome(input.take(1)) == FrameOutcome::More(next));
        lemma_run_frame_fuel(next, tail, (fuel - 2) as nat, (fuel - 1) as nat);
    } else {
        let mid = match r {
            FrameRead::Type(_) => FrameRead::Type(VarintRead::Rest(e[0])),
            FrameRead::Len(t, _) => FrameRead::Len(t, VarintRead::Rest(e[0])),
            _ => r,
        };
        let after = input.skip(1);
        assert(after =~= e.drop_first() + tail);
        assert(after.take((n - 1) as int) =~= e.drop_first());
        assert(after.skip((n - 1) as int) =~= tail);
        assert(mid.want() == n - 1);
        assert(r.want() == 1);
        assert(r.outcome(input.take(1)) == FrameOutcome::More(mid));
        assert(mid.outcome(after.take((n - 1) as int)) == FrameOutcome::More(next));
        assert(run_frame(mid, after, (fuel - 1) as nat) == Some(
            (
                run_frame(next, tail, (fuel - 2) as nat).unwrap().0,
                run_frame(next, tail, (fuel - 2) as nat).unwrap().1,
                (run_frame(next, tail, (fuel - 2) as nat).unwrap().2 + (n - 1)) as nat,
            ),
        ));
    }
}

/// A fresh reader handed the bytes of a frame, whatever follows them, reads
/// back its type and payload and takes exactly the frame's bytes.
pub proof fn lemma_frame_roundtrip(typ: u64, payload: Seq<u8>, rest: Seq<u8>)
    requires
        typ < varint_limit(),
        payload.len() <= u32::MAX,
    ensures
        run_frame(FrameRead::initial(), frame_bytes(typ, payload) + rest, 5) == Some(
            (typ, payload, frame_bytes(typ, payload).len()),
        ),
{
    let et = varint_encoding(typ as nat);
    let el = varint_encoding((payload.len() as u32) as nat);
    assert((payload.len() as u32) as nat == payload.len());
    let input = frame_bytes(typ, payload) + rest;
    assert(input =~= et + ((el + payload) + rest));
    // the payload stage
    let pay = FrameRead::Payload(typ as u64, payload.len() as usize);
    let pin = payload + rest;
    assert(pin.take(payload.len() as int) =~= payload);
    assert(run_frame(pay, pin, 1) == Some((typ as u64, payload, payload.len())));
    // the length stage
    let len_stage = FrameRead::Len(typ as u64, VarintRead::First);
    assert((el + payload) + rest =~= el + pin);
    lemma_run_varint_stage(len_stage, payload.len(), pin, 3);
    // the type stage
    lemma_run_varint_stage(FrameRead::initial(), typ as nat, (el + payload) + rest, 5);
}


/// A varint read takes any complete encoding (of any length, not only the
/// shortest) in the chunks it asks for, its first byte and then the others,
/// and gives the value that the encoding carries.
pub proof fn lemma_varint_read(s: Seq<u8>)
    requires
        is_varint(s),
    ensures
        VarintRead::First.want() == 1,
        s.len() == 1 ==> VarintRead::First.outcome(s) == VarintProgress::Value(
            varint_value(s) as u64,
        ),
        s.len() > 1 ==> VarintRead::First.outcome(s.take(1)) == VarintProgress::More(
            VarintRead::Rest(s[0]),
        ),
        s.len() > 1 ==> VarintRead::Rest(s[0]).wf() && VarintRead::Rest(s[0]).want() == s.len()
            - 1,
        s.len() > 1 ==> VarintRead::Rest(s[0]).outcome(s.drop_first()) == VarintProgress::Value(
            varint_value(s) as u64,
        ),
        varint_value(s) < varint_limit(),
{
    lemma_varint_value_bound(s);
    if s.len() > 1 {
        assert(s.take(1)[0] == s[0]);
        assert(seq![s[0]] + s.drop_first() =~= s);
    }
}

/// Reading the encoding of `v` in `n` bytes, for every length `n` that holds
/// `v`, gives `v`: in one chunk when `n` is 1, else the first byte and then
/// the `n - 1` others.
pub proof fn lemma_varint_read_any_width(v: nat, n: nat)
    requires
        varint_width(n),
        v < 64 * pow256((n - 1) as nat),
    ensures
        ({
            let s = varint_encoding_in(v, n);
            &&& n == 1 ==> VarintRead::First.outcome(s) == VarintProgress::Value(v as u64)
            &&& n > 1 ==> VarintRead::First.outcome(s.take(1)) == VarintProgress::More(
                VarintRead::Rest(s[0]),
            )
            &&& n > 1 ==> VarintRead::Rest(s[0]).want() == n - 1
            &&& n > 1 ==> VarintRead::Rest(s[0]).outcome(s.drop_first()) == VarintProgress::Value(
                v as u64,
            )
        }),
{
    lemma_varint_width(v, n);
    lemma_varint_read(varint_encoding_in(v, n));
}

/// A reader waiting for a varint (the type or the length of a frame) that is
/// handed any complete encoding `e` followed by `tail` reaches the next stage,
/// with the value `e` carries, after taking exactly `e`.
proof fn lemma_run_varint_any(r: FrameRead, e: Seq<u8>, tail: Seq<u8>, fuel: nat)
    requires
        r matches FrameRead::Type(VarintRead::First) || r matches FrameRead::Len(_, VarintRead::First),
        is_varint(e),
        fuel >= 2,
        run_frame(
            (match r {
                FrameRead::Type(_) => FrameRead::Len(varint_value(e) as u64, VarintRead::First),
                FrameRead::Len(t, _) => FrameRead::Payload(
                    t,
                    #[verifier::truncate] ((varint_value(e) as u64) as usize),
                ),
                _ => r,
            }),
            tail,
            (fuel - 2) as nat,
        ) is Some,
    ensures
        ({
            let next = match r {
                FrameRead::Type(_) => FrameRead::Len(varint_value(e) as u64, VarintRead::First),
                FrameRead::Len(t, _) => FrameRead::Payload(
                    t,
                    #[verifier::truncate] ((varint_value(e) as u64) as usize),
                ),
                _ => r,
            };
            let rest = run_frame(next, tail, (fuel - 2) as nat).unwrap();
            run_frame(r, e + tail, fuel) == Some((rest.0, rest.1, rest.2 + e.len()))
        }),
{
    let next = match r {
        FrameRead::Type(_) => FrameRead::Len(varint_value(e) as u64, VarintRead::First),
        FrameRead::Len(t, _) => FrameRead::Payload(
            t,
            #[verifier::truncate] ((varint_value(e) as u64) as usize),
        ),
        _ => r,
    };
    lemma_varint_read(e);
    let input = e + tail;
    let n = e.len();
    assert(input.take(1) =~= e.take(1));
    if n == 1 {
        assert(input.take(1) =~= e);
        assert(input.skip(1) =~= tail);
        assert(r.outcome(input.take(1)) == FrameOutcome::More(next));
        lemma_run_frame_fuel(next, tail, (fuel - 2) as nat, (fuel - 1) as nat);
    } else {
        let mid = match r {
            FrameRead::Type(_) => FrameRead::Type(VarintRead::Rest(e[0])),
            FrameRead::Len(t, _) => FrameRead::Len(t, VarintRead::Rest(e[0])),
            _ => r,
        };
        let after = input.skip(1);
        assert(after =~= e.drop_first() + tail);
        assert(after.take((n - 1) as int) =~= e.drop_first());
        assert(after.skip((n - 1) as int) =~= tail);
        assert(r.outcome(input.take(1)) == FrameOutcome::More(mid));
        assert(mid.outcome(after.take((n - 1) as int)) == FrameOutcome::More(next));
        assert(run_frame(mid, after, (fuel - 1) as nat) == Some(
            (
                run_frame(next, tail, (fuel - 2) as nat).unwrap().0,
                run_frame(next, tail, (fuel - 2) as nat).unwrap().1,
                (run_frame(next, tail, (fuel - 2) as nat).unwrap().2 + (n - 1)) as nat,
            ),
        ));
    }
}

/// A fresh reader handed a frame whose type and length are written in any
/// valid encodings (not only the shortest), whatever follows it, reads the
/// type and length those encodings carry, takes the payload of that length,
/// and takes exactly the frame's bytes.
pub proof fn lemma_frame_read_any_encoding(et: Seq<u8>, el: Seq<u8>, payload: Seq<u8>, rest: Seq<u8>)
    requires
        is_varint(et),
        is_varint(el),
        varint_value(el) == payload.len(),
        payload.len() <= usize::MAX,
    ensures
        run_frame(FrameRead::initial(), et + el + payload + rest, 5) == Some(
            (varint_value(et) as u64, payload, et.len() + el.len() + payload.len()),
        ),
{
    lemma_varint_read(et);
    lemma_varint_read(el);
    let t = varint_value(et) as u64;
    let input = et + el + payload + rest;
    assert(input =~= et + ((el + payload) + rest));
    let pay = FrameRead::Payload(t, payload.len() as usize);
    let pin = payload + rest;
    assert(pin.take(payload.len() as int) =~= payload);
    assert(run_frame(pay, pin, 1) == Some((t, payload, payload.len())));
    let len_stage = FrameRead::Len(t, VarintRead::First);
    assert((el + payload) + rest =~= el + pin);
    lemma_run_varint_any(len_stage, el, pin, 3);
    lemma_run_varint_any(FrameRead::initial(), et, (el + payload) + rest, 5);
}

/// A frame whose type `typ` is written in `nt` bytes and whose payload length
/// in `nl` bytes, for any lengths that hold them, is read back as `typ` and
/// its payload, taking exactly its bytes.
pub proof fn lemma_frame_read_any_width(
    typ: nat,
    nt: nat,
    payload: Seq<u8>,
    nl: nat,
    rest: Seq<u8>,
)
    requires
        varint_width(nt),
        varint_width(nl),
        typ < 64 * pow256((nt - 1) as nat),
        payload.len() < 64 * pow256((nl - 1) as nat),
        payload.len() <= usize::MAX,
    ensures
        run_frame(
            FrameRead::initial(),
            varint_encoding_in(typ, nt) + varint_encoding_in(payload.len(), nl) + payload + rest,
            5,
        ) == Some((typ as u64, payload, nt + nl + payload.len())),
{
    lemma_varint_width(typ, nt);
    lemma_varint_width(payload.len(), nl);
    lemma_frame_read_any_encoding(
        varint_encoding_in(typ, nt),
        varint_encoding_in(payload.len(), nl),
        payload,
        rest,
    );
}

} // verus!
