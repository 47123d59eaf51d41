//! HTTP/3 SETTINGS as WebTransport uses them: the settings this side sends,
//! the check that the peer's settings enable WebTransport, and the bytes that
//! open the control stream that carries them: the stream type, then a
//! SETTINGS frame whose payload is the identifier/value pairs.
use bytes::BytesMut;
use vstd::prelude::*;
use web_transport_proto::{Setting, Settings, SettingsError};
use crate::frame::frame_bytes;
use crate::varint::varint_encoding;

verus! {

#[verifier::external_type_specification]
#[verifier::external_body]
pub struct ExSettings(Settings);

#[verifier::external_type_specification]
#[verifier::external_body]
pub struct ExSettingsError(SettingsError);

#[verifier::external_type_specification]
#[verifier::external_body]
pub struct ExSetting(Setting);

/// What a `Settings` holds: each setting identifier with its value.
pub uninterp spec fn settings_entries(s: Settings) -> Map<u64, u64>;

/// What `Settings::decode` makes of a buffer: the settings it read, or the
/// text of the error with which it refused the buffer.
pub uninterp spec fn settings_decode(bytes: Seq<u8>) -> Result<Map<u64, u64>, Seq<char>>;

/// The settings `Settings::decode` reads from a buffer, or `None` when it
/// refuses the buffer.
pub open spec fn decoded_settings(bytes: Seq<u8>) -> Option<Map<u64, u64>> {
    match settings_decode(bytes) {
        Ok(m) => Some(m),
        Err(_) => None,
    }
}

/// The text of the error with which `Settings::decode` refuses a buffer.
pub open spec fn settings_decode_error(bytes: Seq<u8>) -> Seq<char> {
    match settings_decode(bytes) {
        Ok(_) => Seq::empty(),
        Err(t) => t,
    }
}

/// The unidirectional stream type of the HTTP/3 control stream.
pub const CONTROL_STREAM: u32 = 0x00;

/// The frame type of a SETTINGS frame.
pub const SETTINGS_FRAME: u32 = 0x04;

/// Setting identifiers that WebTransport uses.
pub const SETTING_MAX_FIELD_SECTION_SIZE: u64 = 0x6;
pub const SETTING_ENABLE_CONNECT_PROTOCOL: u64 = 0x8;
pub const SETTING_ENABLE_DATAGRAM: u64 = 0x33;
pub const SETTING_ENABLE_DATAGRAM_DEPRECATED: u64 = 0xFFD277;
pub const SETTING_WEBTRANSPORT_ENABLE_DEPRECATED: u64 = 0x2b603742;
pub const SETTING_WEBTRANSPORT_MAX_SESSIONS_DEPRECATED: u64 = 0x2b603743;
pub const SETTING_WEBTRANSPORT_MAX_SESSIONS: u64 = 0xc671706a;

/// A reserved ("grease") identifier, which a decoder skips.
pub open spec fn is_grease(id: u64) -> bool {
    id >= 0x21 && (id - 0x21) % 0x1f == 0
}

/// The settings `m` with WebTransport enabled for `max_sessions` sessions.
pub open spec fn with_webtransport(m: Map<u64, u64>, max_sessions: u64) -> Map<u64, u64> {
    m.insert(SETTING_MAX_FIELD_SECTION_SIZE, 16384).insert(SETTING_ENABLE_CONNECT_PROTOCOL, 1).insert(
        SETTING_ENABLE_DATAGRAM,
        1,
    ).insert(SETTING_ENABLE_DATAGRAM_DEPRECATED, 1).insert(SETTING_WEBTRANSPORT_MAX_SESSIONS, max_sessions).insert(
        SETTING_WEBTRANSPORT_MAX_SESSIONS_DEPRECATED,
        max_sessions,
    ).insert(SETTING_WEBTRANSPORT_ENABLE_DEPRECATED, 1)
}

/// How many WebTransport sessions the settings `m` allow (0: WebTransport is
/// not supported). Datagrams must be enabled (the current identifier is
/// looked at first); then the current maximum-sessions setting decides; else
/// the deprecated pair, with one session when only enabling is present.
pub open spec fn webtransport_support(m: Map<u64, u64>) -> u64 {
    let datagram = if m.contains_key(SETTING_ENABLE_DATAGRAM) {
        Some(m[SETTING_ENABLE_DATAGRAM])
    } else if m.contains_key(SETTING_ENABLE_DATAGRAM_DEPRECATED) {
        Some(m[SETTING_ENABLE_DATAGRAM_DEPRECATED])
    } else {
        None
    };
    if datagram != Some(1u64) {
        0
    } else if m.contains_key(SETTING_WEBTRANSPORT_MAX_SESSIONS) {
        m[SETTING_WEBTRANSPORT_MAX_SESSIONS]
    } else if !(m.contains_key(SETTING_WEBTRANSPORT_ENABLE_DEPRECATED) && m[SETTING_WEBTRANSPORT_ENABLE_DEPRECATED]
        == 1) {
        0
    } else if m.contains_key(SETTING_WEBTRANSPORT_MAX_SESSIONS_DEPRECATED) {
        m[SETTING_WEBTRANSPORT_MAX_SESSIONS_DEPRECATED]
    } else {
        1
    }
}

/// The settings this side sends: WebTransport with one session.
pub open spec fn our_settings_map() -> Map<u64, u64> {
    with_webtransport(Map::empty(), 1)
}

/// Settings that encode and decode back unchanged: finitely many, small
/// enough for one frame, and none of them grease.
pub open spec fn encodable(m: Map<u64, u64>) -> bool {
    &&& m.dom().finite()
    &&& m.dom().len() <= 4096
    &&& forall|id: u64| #[trigger] m.contains_key(id) ==> !is_grease(id)
}

/// `Settings::default`: no settings.
#[verifier::external_body]
fn new_settings() -> (s: Settings)
    ensures
        settings_entries(s) =~= Map::empty(),
{
    Settings::default()
}

/// `Settings::enable_webtransport`: sets the field-section limit (16 KiB),
/// CONNECT, both datagram identifiers, both maximum-sessions identifiers and
/// the deprecated enabling identifier.
#[verifier::external_body]
fn enable_webtransport(s: &mut Settings, max_sessions: u32)
    ensures
        settings_entries(*final(s)) == with_webtransport(
            settings_entries(*old(s)),
            max_sessions as u64,
        ),
{
    s.enable_webtransport(max_sessions)
}

/// `Settings::supports_webtransport`: the number of sessions the settings
/// allow, as `webtransport_support` states it.
#[verifier::external_body]
fn supports_webtransport(s: &Settings) -> (r: u64)
    ensures
        r == webtransport_support(settings_entries(*s)),
{
    s.supports_webtransport()
}

/// `Settings::decode` on a byte slice, its error turned into its text; both
/// are those `settings_decode` names.
#[verifier::external_body]
fn decode_settings(bytes: &[u8]) -> (r: Result<Settings, String>)
    ensures
        match r {
            Ok(s) => (settings_decode(bytes@) matches Ok(e) && e == settings_entries(s)),
            Err(m) => (settings_decode(bytes@) matches Err(t) && t == m@),
        },
{
    let mut buf: &[u8] = bytes;
    match Settings::decode(&mut buf) {
        Ok(s) => Ok(s),
        Err(e) => Err(e.to_string()),
    }
}

/// A setting: its identifier and its value.
pub type SettingEntry = (u64, u64);

/// The identifier/value pairs `e`, each as two varints, one after the other.
pub open spec fn entry_bytes(e: Seq<SettingEntry>) -> Seq<u8>
    decreases e.len(),
{
    if e.len() == 0 {
        Seq::empty()
    } else {
        varint_encoding(e[0].0 as nat) + varint_encoding(e[0].1 as nat) + entry_bytes(e.drop_first())
    }
}

/// `e` lists each entry of `m` once, in some order.
pub open spec fn lists_entries(e: Seq<SettingEntry>, m: Map<u64, u64>) -> bool {
    &&& m.dom().finite()
    &&& e.len() == m.dom().len()
    &&& forall|i: int| 0 <= i < e.len() ==> #[trigger] m.contains_key(e[i].0) && m[e[i].0] == e[i].1
    &&& forall|i: int, j: int| 0 <= i < j < e.len() ==> #[trigger] e[i].0 != #[trigger] e[j].0
}

/// The bytes that open a control stream carrying the pairs `pairs`: the
/// control stream type, then a SETTINGS frame with the pairs as payload.
pub open spec fn settings_stream_bytes(pairs: Seq<u8>) -> Seq<u8> {
    varint_encoding(CONTROL_STREAM as nat) + frame_bytes(SETTINGS_FRAME as u64, pairs)
}

/// `b` opens a control stream carrying the settings `m`: the stream type, then
/// a SETTINGS frame whose payload lists each entry of `m`, in some order.
pub open spec fn opens_control_stream(b: Seq<u8>, m: Map<u64, u64>) -> bool {
    exists|e: Seq<SettingEntry>|
        lists_entries(e, m) && b == settings_stream_bytes(#[trigger] entry_bytes(e))
}

/// `Settings::encode` into a fresh buffer: the control stream type, the
/// SETTINGS frame type, the payload length (as a `u32`), then each entry as an
/// identifier varint and a value varint, in the map's iteration order (which
/// is why the order is left unsaid). Encodable settings are read back by
/// `Settings::decode`.
#[verifier::external_body]
fn encode_settings(s: &Settings) -> (r: Vec<u8>)
    ensures
        opens_control_stream(r@, settings_entries(*s)),
        encodable(settings_entries(*s)) ==> decoded_settings(r@) == Some(settings_entries(*s)),
{
    let mut buf = BytesMut::new();
    s.encode(&mut buf);
    buf.to_vec()
}

/// The settings this side sends: WebTransport enabled for one session.
pub fn our_settings() -> (s: Settings)
    ensures
        settings_entries(s) == our_settings_map(),
{
    let mut s = new_settings();
    enable_webtransport(&mut s, 1);
    s
}

/// The number of WebTransport sessions that `s` allows (0: none).
pub fn webtransport_sessions(s: &Settings) -> (r: u64)
    ensures
        r == webtransport_support(settings_entries(*s)),
{
    supports_webtransport(s)
}

/// The settings at the start of a control stream whose bytes so far are
/// `stream` (the stream type, then a frame of type `typ`): refused unless the
/// frame is a SETTINGS frame and `Settings::decode` accepts the bytes.
pub fn settings_from_stream(typ: u64, stream: &[u8]) -> (r: Result<Settings, String>)
    ensures
        typ != SETTINGS_FRAME ==> (r matches Err(m) && m@ == "expected SETTINGS frame"@),
        typ == SETTINGS_FRAME ==> match decoded_settings(stream@) {
            Some(m) => (r matches Ok(s) && settings_entries(s) == m),
            None => (r matches Err(m) && m@ == settings_decode_error(stream@)),
        },
{
    if typ != SETTINGS_FRAME as u64 {
        return Err(String::from_str("expected SETTINGS frame"));
    }
    decode_settings(stream)
}

/// `b` opens a control stream with our settings: the stream type, then a
/// SETTINGS frame whose payload lists the entries of our settings, which
/// `Settings::decode` reads back from `b`.
pub open spec fn carries_our_settings(b: Seq<u8>) -> bool {
    &&& opens_control_stream(b, our_settings_map())
    &&& decoded_settings(b) == Some(our_settings_map())
}

/// The bytes that open our control stream: the stream type, then a SETTINGS
/// frame with our settings.
pub fn our_settings_stream() -> (r: Vec<u8>)
    ensures
        carries_our_settings(r@),
{
    let s = our_settings();
    proof {
        lemma_our_settings_supported();
    }
    encode_settings(&s)
}

/// Each entry takes at most 16 bytes.
pub proof fn lemma_entry_bytes_len(e: Seq<SettingEntry>)
    requires
        forall|i: int| 0 <= i < e.len() ==> (#[trigger] e[i]).0 < 0x4000_0000_0000_0000 && e[i].1
            < 0x4000_0000_0000_0000,
    ensures
        entry_bytes(e).len() <= 16 * e.len(),
    decreases e.len(),
{
    if e.len() > 0 {
        assert(e[0] == e[0]);
        crate::varint::lemma_varint_roundtrip(e[0].0 as nat);
        crate::varint::lemma_varint_roundtrip(e[0].1 as nat);
        assert forall|i: int| 0 <= i < e.drop_first().len() implies (
        #[trigger] e.drop_first()[i]).0 < 0x4000_0000_0000_0000 && e.drop_first()[i].1
            < 0x4000_0000_0000_0000 by {
            assert(e.drop_first()[i] == e[i + 1]);
        }
        lemma_entry_bytes_len(e.drop_first());
    }
}

// ---------------------------------------------------------------------------
// Laws
// ---------------------------------------------------------------------------

/// The settings this side sends enable WebTransport, for one session: a peer
/// running this library accepts them.
pub proof fn lemma_our_settings_supported()
    ensures
        webtransport_support(our_settings_map()) == 1,
        encodable(our_settings_map()),
        our_settings_map().dom().len() <= 7,
{
    let m = our_settings_map();
    assert(m.contains_key(SETTING_ENABLE_DATAGRAM));
    assert(m[SETTING_ENABLE_DATAGRAM] == 1);
    assert(m.contains_key(SETTING_WEBTRANSPORT_MAX_SESSIONS));
    assert(m[SETTING_WEBTRANSPORT_MAX_SESSIONS] == 1);
    assert(m.dom() =~= set![
        SETTING_MAX_FIELD_SECTION_SIZE,
        SETTING_ENABLE_CONNECT_PROTOCOL,
        SETTING_ENABLE_DATAGRAM,
        SETTING_ENABLE_DATAGRAM_DEPRECATED,
        SETTING_WEBTRANSPORT_MAX_SESSIONS,
        SETTING_WEBTRANSPORT_MAX_SESSIONS_DEPRECATED,
        SETTING_WEBTRANSPORT_ENABLE_DEPRECATED,
    ]);
    assert(m.dom().len() <= 7);
    assert forall|id: u64| #[trigger] m.contains_key(id) implies !is_grease(id) by {}
}

/// A peer that enables datagrams and announces a maximum number of
/// WebTransport sessions supports exactly that many sessions, whatever the
/// number and whatever else it sends; without datagrams it supports none.
pub proof fn lemma_support_is_max_sessions(m: Map<u64, u64>)
    ensures
        m.contains_key(SETTING_ENABLE_DATAGRAM) && m[SETTING_ENABLE_DATAGRAM] == 1
            && m.contains_key(SETTING_WEBTRANSPORT_MAX_SESSIONS) ==> webtransport_support(m)
            == m[SETTING_WEBTRANSPORT_MAX_SESSIONS],
        !m.contains_key(SETTING_ENABLE_DATAGRAM) && !m.contains_key(
            SETTING_ENABLE_DATAGRAM_DEPRECATED,
        ) ==> webtransport_support(m) == 0,
{
}

} // verus!
