//! QUIC variable-length integers (RFC 9000, section 16) as they travel on the
//! HTTP/3 control and request streams: the two top bits of the first byte give
//! the length of the encoding (1, 2, 4 or 8 bytes), the other bits hold the
//! big-endian value.
use vstd::prelude::*;
use web_transport_proto::{VarInt, VarIntUnexpectedEnd};

verus! {

#[verifier::external_type_specification]
#[verifier::external_body]
pub struct ExVarIntUnexpectedEnd(VarIntUnexpectedEnd);

#[verifier::external_type_specification]
#[verifier::external_body]
pub struct ExVarInt(VarInt);

/// Number of bytes of a varint whose first byte is `first`.
pub open spec fn varint_size(first: u8) -> nat {
    if first < 64 {
        1
    } else if first < 128 {
        2
    } else if first < 192 {
        4
    } else {
        8
    }
}

/// 256 to the power `n`.
pub open spec fn pow256(n: nat) -> nat
    decreases n,
{
    if n == 0 {
        1
    } else {
        256 * pow256((n - 1) as nat)
    }
}

/// The big-endian number that the bytes `s` spell.
pub open spec fn be_value(s: Seq<u8>) -> nat
    decreases s.len(),
{
    if s.len() == 0 {
        0
    } else {
        be_value(s.drop_last()) * 256 + s.last() as nat
    }
}

/// The value carried by a complete varint encoding `s`: the big-endian number
/// of its bytes once the two length bits are cleared.
pub open spec fn varint_value(s: Seq<u8>) -> nat
    recommends
        s.len() > 0,
{
    be_value(seq![(s[0] % 64) as u8] + s.drop_first())
}

/// One more than the largest value a varint can carry (2^62).
pub open spec fn varint_limit() -> nat {
    0x4000_0000_0000_0000
}

/// Length of the shortest encoding of `v`, which is the one the encoder writes.
pub open spec fn varint_encoded_len(v: nat) -> nat {
    if v < 64 {
        1
    } else if v < 0x4000 {
        2
    } else if v < 0x4000_0000 {
        4
    } else {
        8
    }
}

/// The two length bits, placed in the first byte, of an encoding of `n` bytes.
pub open spec fn varint_tag(n: nat) -> nat {
    if n == 1 {
        0
    } else if n == 2 {
        64
    } else if n == 4 {
        128
    } else {
        192
    }
}

/// The `n` low-order bytes of `v`, most significant first.
pub open spec fn be_bytes(v: nat, n: nat) -> Seq<u8>
    decreases n,
{
    if n == 0 {
        Seq::empty()
    } else {
        be_bytes(v / 256, (n - 1) as nat).push((v % 256) as u8)
    }
}

/// The encoding of `v` that a QUIC encoder writes: its big-endian bytes in the
/// shortest of the four lengths, with the length bits set in the first byte.
pub open spec fn varint_encoding(v: nat) -> Seq<u8> {
    let n = varint_encoded_len(v);
    let b = be_bytes(v, n);
    b.update(0, (b[0] + varint_tag(n)) as u8)
}

/// The lengths a varint encoding can have.
pub open spec fn varint_width(n: nat) -> bool {
    n == 1 || n == 2 || n == 4 || n == 8
}

/// The encoding of `v` in `n` bytes (1, 2, 4 or 8): its big-endian bytes
/// with the length bits set in the first byte. A sender may use any length
/// that holds the value; `varint_encoding` uses the shortest.
pub open spec fn varint_encoding_in(v: nat, n: nat) -> Seq<u8> {
    let b = be_bytes(v, n);
    b.update(0, (b[0] + varint_tag(n)) as u8)
}

/// `s` is a complete varint encoding: its first byte announces its length.
pub open spec fn is_varint(s: Seq<u8>) -> bool {
    s.len() > 0 && s.len() == varint_size(s[0])
}

/// `web_transport_proto::VarInt::decode`, on a byte slice: fails when the
/// slice is empty or shorter than the length its first byte announces; else
/// gives the value of the encoding at the front of the slice.
#[verifier::external_body]
fn decode_varint(bytes: &[u8]) -> (r: Result<u64, VarIntUnexpectedEnd>)
    ensures
        r is Ok <==> (bytes@.len() > 0 && bytes@.len() >= varint_size(bytes@[0])),
        r matches Ok(v) ==> v == varint_value(bytes@.take(varint_size(bytes@[0]) as int)),
{
    let mut buf: &[u8] = bytes;
    match VarInt::decode(&mut buf) {
        Ok(v) => Ok(v.into_inner()),
        Err(e) => Err(e),
    }
}

/// The text of a varint decoding error (its `Display`).
fn varint_error_text(e: &VarIntUnexpectedEnd) -> (r: String)
    ensures
        vstd::string::to_string_from_display_ensures::<VarIntUnexpectedEnd>(e, r),
{
    e.to_string()
}

/// How many bytes the varint that starts with `first` occupies.
pub fn varint_len(first: u8) -> (n: usize)
    ensures
        n == varint_size(first),
{
    let tag: u8 = first >> 6;
    assert(tag == first / 64) by (bit_vector)
        requires
            tag == first >> 6,
    ;
    match tag {
        0 => 1,
        1 => 2,
        2 => 4,
        _ => 8,
    }
}

/// Decodes the varint made of its first byte `first` and the bytes `rest`
/// that follow it on the stream.
pub fn varint_from_parts(first: u8, rest: &[u8]) -> (r: Result<u64, String>)
    requires
        rest@.len() + 1 == varint_size(first),
    ensures
        r matches Ok(v) && v == varint_value(seq![first] + rest@),
{
    let mut buf: Vec<u8> = Vec::with_capacity(8);
    buf.push(first);
    let mut i: usize = 0;
    while i < rest.len()
        invariant
            i <= rest@.len(),
            buf@ == seq![first] + rest@.take(i as int),
        decreases rest@.len() - i,
    {
        buf.push(rest[i]);
        i = i + 1;
        assert(buf@ =~= seq![first] + rest@.take(i as int));
    }
    assert(rest@.take(rest@.len() as int) =~= rest@);
    assert(buf@.take(varint_size(buf@[0]) as int) =~= buf@);
    match decode_varint(buf.as_slice()) {
        Ok(v) => Ok(v),
        Err(e) => Err(varint_error_text(&e)),
    }
}

// ---------------------------------------------------------------------------
// Facts about the encoding
// ---------------------------------------------------------------------------

proof fn lemma_pow256_positive(n: nat)
    ensures
        pow256(n) > 0,
    decreases n,
{
    if n > 0 {
        lemma_pow256_positive((n - 1) as nat);
    }
}

/// `be_bytes` has the requested length, spells `v` modulo 256^n, and starts
/// with the byte of weight 256^(n-1).
proof fn lemma_be_bytes(v: nat, n: nat)
    ensures
        be_bytes(v, n).len() == n,
        be_value(be_bytes(v, n)) == v % pow256(n),
        n > 0 ==> be_bytes(v, n)[0] == (v / pow256((n - 1) as nat)) % 256,
    decreases n,
{
    if n > 0 {
        let m = (n - 1) as nat;
        lemma_be_bytes(v / 256, m);
        lemma_pow256_positive(m);
        let b = be_bytes(v, n);
        assert(b.drop_last() =~= be_bytes(v / 256, m));
        vstd::arithmetic::div_mod::lemma_mod_breakdown(v as int, 256, pow256(m) as int);
        if m > 0 {
            lemma_pow256_positive((m - 1) as nat);
            vstd::arithmetic::div_mod::lemma_div_denominator(
                v as int,
                256,
                pow256((m - 1) as nat) as int,
            );
            assert(b[0] == be_bytes(v / 256, m)[0]);
            assert(pow256(m) == 256 * pow256((m - 1) as nat));
        } else {
            assert(b[0] == v % 256);
            assert(pow256(0) == 1);
            assert(v / 1 == v);
        }
    }
}

/// The big-endian value of a byte followed by more bytes.
proof fn lemma_be_value_prepend(a: u8, r: Seq<u8>)
    ensures
        be_value(seq![a] + r) == a * pow256(r.len()) + be_value(r),
    decreases r.len(),
{
    let s = seq![a] + r;
    if r.len() == 0 {
        assert(s.drop_last() =~= Seq::<u8>::empty());
        assert(be_value(Seq::<u8>::empty()) == 0);
        assert(pow256(0) == 1);
        assert(be_value(s) == a);
    } else {
        assert(s.drop_last() =~= seq![a] + r.drop_last());
        assert(s.last() == r.last());
        lemma_be_value_prepend(a, r.drop_last());
        let p = pow256((r.len() - 1) as nat);
        assert(pow256(r.len()) == 256 * p);
        assert((a * p + be_value(r.drop_last())) * 256 + r.last() == a * (256 * p) + (
        be_value(r.drop_last()) * 256 + r.last())) by (nonlinear_arith);
    }
}

/// The big-endian value of `n` bytes is below 256^n.
proof fn lemma_be_value_bound(s: Seq<u8>)
    ensures
        be_value(s) < pow256(s.len()),
    decreases s.len(),
{
    if s.len() > 0 {
        lemma_be_value_bound(s.drop_last());
        let p = pow256((s.len() - 1) as nat);
        let x = be_value(s.drop_last());
        let l = s.last();
        assert(x * 256 + l < 256 * p) by (nonlinear_arith)
            requires
                x < p,
                l < 256,
        ;
    }
}

proof fn lemma_pow256_values()
    ensures
        pow256(0) == 1,
        pow256(1) == 256,
        pow256(3) == 0x100_0000,
        pow256(7) == 0x100_0000_0000_0000,
        pow256(2) == 0x1_0000,
        pow256(4) == 0x1_0000_0000,
        pow256(8) == 0x1_0000_0000_0000_0000,
{
    reveal_with_fuel(pow256, 9);
}

/// A complete varint encoding carries a value below 2^62.
pub proof fn lemma_varint_value_bound(s: Seq<u8>)
    requires
        s.len() > 0,
        s.len() == varint_size(s[0]),
    ensures
        varint_value(s) < varint_limit(),
{
    let a = (s[0] % 64) as u8;
    let r = s.drop_first();
    lemma_be_value_prepend(a, r);
    lemma_be_value_bound(r);
    lemma_pow256_values();
    let p = pow256(r.len());
    assert(p <= 0x100_0000_0000_0000);
    assert(a * p + be_value(r) < 64 * p) by (nonlinear_arith)
        requires
            a < 64,
            be_value(r) < p,
    ;
    assert(64 * p <= 64 * 0x100_0000_0000_0000) by (nonlinear_arith)
        requires
            p <= 0x100_0000_0000_0000,
    ;
}

/// Decoding gives back what encoding wrote: the encoding of `v` announces its
/// own length in its first byte, and its value is `v`.
pub proof fn lemma_varint_roundtrip(v: nat)
    requires
        v < varint_limit(),
    ensures
        varint_encoding(v).len() == varint_encoded_len(v),
        varint_encoding(v).len() == varint_size(varint_encoding(v)[0]),
        varint_value(varint_encoding(v)) == v,
{
    let n = varint_encoded_len(v);
    let m = (n - 1) as nat;
    lemma_be_bytes(v, n);
    lemma_pow256_values();
    lemma_pow256_positive(m);
    let b = be_bytes(v, n);
    let p = pow256(m);
    // v fits in n bytes with the top two bits clear
    assert(v < 64 * p);
    assert(v / p < 64) by (nonlinear_arith)
        requires
            v < 64 * p,
            p > 0,
    ;
    assert(v < 256 * p);
    assert(b[0] == v / p);
    let e = varint_encoding(v);
    assert(e[0] == b[0] + varint_tag(n));
    assert(e[0] % 64 == b[0]);
    assert(seq![(e[0] % 64) as u8] + e.drop_first() =~= b);
    assert(v % pow256(n) == v) by {
        vstd::arithmetic::div_mod::lemma_small_mod(v, pow256(n));
    }
}

/// Every length that holds a value gives a complete encoding of it: the
/// encoding of `v` in `n` bytes announces `n` in its first byte, and its value
/// is `v`, whatever `n` is, not only for the shortest length.
pub proof fn lemma_varint_width(v: nat, n: nat)
    requires
        varint_width(n),
        v < 64 * pow256((n - 1) as nat),
    ensures
        varint_encoding_in(v, n).len() == n,
        is_varint(varint_encoding_in(v, n)),
        varint_value(varint_encoding_in(v, n)) == v,
{
    let m = (n - 1) as nat;
    lemma_be_bytes(v, n);
    lemma_pow256_values();
    lemma_pow256_positive(m);
    let b = be_bytes(v, n);
    let p = pow256(m);
    assert(pow256(n) == 256 * p);
    assert(v / p < 64) by (nonlinear_arith)
        requires
            v < 64 * p,
            p > 0,
    ;
    assert(v < 256 * p);
    assert(b[0] == v / p);
    let e = varint_encoding_in(v, n);
    assert(e[0] == b[0] + varint_tag(n));
    assert(e[0] % 64 == b[0]);
    assert(seq![(e[0] % 64) as u8] + e.drop_first() =~= b);
    assert(v % pow256(n) == v) by {
        vstd::arithmetic::div_mod::lemma_small_mod(v, pow256(n));
    }
}

/// The decoder reads an encoding back whatever bytes follow it.
pub proof fn lemma_varint_decodes_prefix(v: nat, rest: Seq<u8>)
    requires
        v < varint_limit(),
    ensures
        ({
            let s = varint_encoding(v) + rest;
            &&& s.len() > 0
            &&& s.len() >= varint_size(s[0])
            &&& s.take(varint_size(s[0]) as int) == varint_encoding(v)
            &&& varint_value(s.take(varint_size(s[0]) as int)) == v
        }),
{
    lemma_varint_roundtrip(v);
    let s = varint_encoding(v) + rest;
    assert(s[0] == varint_encoding(v)[0]);
    assert(s.take(varint_size(s[0]) as int) =~= varint_encoding(v));
}

} // verus!
