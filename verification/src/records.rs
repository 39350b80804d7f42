//! The binary input-event record shared by the emission and capture paths,
//! together with the numeric event-type and code constants of the kernel
//! input protocol.
//!
//! A record is the fixed layout {timestamp (seconds + microseconds),
//! event type (16 bits), code (16 bits), value (32 bits, signed)}, written
//! and read in little-endian byte order as one 24-byte unit.

use vstd::bytes::*;
use vstd::prelude::*;
use vstd::slice::slice_subrange;

verus! {

/// Synchronization event type: commits preceding data records as one frame.
pub const EV_SYN: u16 = 0x00;
/// Key or button event type.
pub const EV_KEY: u16 = 0x01;
/// Relative axis motion event type.
pub const EV_REL: u16 = 0x02;
/// Absolute axis motion event type.
pub const EV_ABS: u16 = 0x03;

/// Code of the frame-terminating synchronization record.
pub const SYN_REPORT: u16 = 0;
/// Relative horizontal axis code.
pub const REL_X: u16 = 0x00;
/// Relative vertical axis code.
pub const REL_Y: u16 = 0x01;
/// Absolute horizontal axis code.
pub const ABS_X: u16 = 0x00;
/// Absolute vertical axis code.
pub const ABS_Y: u16 = 0x01;

/// Left pointer button code.
pub const BTN_LEFT: u16 = 0x110;
/// Right pointer button code.
pub const BTN_RIGHT: u16 = 0x111;
/// Middle pointer button code.
pub const BTN_MIDDLE: u16 = 0x112;

/// Bus type declared for the virtual devices.
pub const BUS_USB: u16 = 0x03;

/// Size in bytes of one encoded input-event record.
pub const EVENT_RECORD_SIZE: usize = 24;

/// One kernel input-event record: the unit of both emission and capture.
#[derive(Clone, Copy, PartialEq, Eq, Structural, Debug)]
pub struct InputEvent {
    /// Timestamp seconds.
    pub tv_sec: i64,
    /// Timestamp microseconds.
    pub tv_usec: i64,
    /// Event type (`EV_SYN`, `EV_KEY`, `EV_REL`, `EV_ABS`).
    pub type_: u16,
    /// Event code within its type.
    pub code: u16,
    /// Event value (press state, axis delta, or axis position).
    pub value: i32,
}

impl InputEvent {
    /// A data record with a zeroed timestamp, as the emission path writes it.
    pub fn new(type_: u16, code: u16, value: i32) -> (r: InputEvent)
        ensures
            r == (InputEvent { tv_sec: 0, tv_usec: 0, type_, code, value }),
    {
        InputEvent { tv_sec: 0, tv_usec: 0, type_, code, value }
    }

    /// Whether this is the frame-terminating synchronization record.
    pub open spec fn is_sync(self) -> bool {
        self.type_ == EV_SYN && self.code == SYN_REPORT
    }
}

/// The 24 bytes that one record occupies on the wire, little-endian:
/// seconds, microseconds, type, code, value.
pub open spec fn spec_encode_event(ev: InputEvent) -> Seq<u8> {
    spec_u64_to_le_bytes(ev.tv_sec as u64) + spec_u64_to_le_bytes(ev.tv_usec as u64)
        + spec_u16_to_le_bytes(ev.type_) + spec_u16_to_le_bytes(ev.code)
        + spec_u32_to_le_bytes(ev.value as u32)
}

/// The record that 24 wire bytes denote.
pub open spec fn spec_decode_event(s: Seq<u8>) -> InputEvent {
    InputEvent {
        tv_sec: spec_u64_from_le_bytes(s.subrange(0, 8)) as i64,
        tv_usec: spec_u64_from_le_bytes(s.subrange(8, 16)) as i64,
        type_: spec_u16_from_le_bytes(s.subrange(16, 18)),
        code: spec_u16_from_le_bytes(s.subrange(18, 20)),
        value: spec_u32_from_le_bytes(s.subrange(20, 24)) as i32,
    }
}

/// Serializes one record into its exact wire bytes.
pub fn encode_event(ev: &InputEvent) -> (out: Vec<u8>)
    ensures
        out@ == spec_encode_event(*ev),
        out@.len() == EVENT_RECORD_SIZE,
{
    proof {
        lemma_auto_spec_u64_to_from_le_bytes();
        lemma_auto_spec_u16_to_from_le_bytes();
        lemma_auto_spec_u32_to_from_le_bytes();
    }
    let sec_bits: u64 = self::to_u64_bits(ev.tv_sec);
    let usec_bits: u64 = self::to_u64_bits(ev.tv_usec);
    let value_bits: u32 = self::to_u32_bits(ev.value);
    let mut out = u64_to_le_bytes(sec_bits);
    let mut part = u64_to_le_bytes(usec_bits);
    out.append(&mut part);
    let mut part = u16_to_le_bytes(ev.type_);
    out.append(&mut part);
    let mut part = u16_to_le_bytes(ev.code);
    out.append(&mut part);
    let mut part = u32_to_le_bytes(value_bits);
    out.append(&mut part);
    out
}

/// Reads one record back out of its wire bytes.
pub fn decode_event(s: &[u8]) -> (ev: InputEvent)
    requires
        s@.len() == EVENT_RECORD_SIZE,
    ensures
        ev == spec_decode_event(s@),
{
    let sec_bits = u64_from_le_bytes(slice_subrange(s, 0, 8));
    let usec_bits = u64_from_le_bytes(slice_subrange(s, 8, 16));
    let type_ = u16_from_le_bytes(slice_subrange(s, 16, 18));
    let code = u16_from_le_bytes(slice_subrange(s, 18, 20));
    let value_bits = u32_from_le_bytes(slice_subrange(s, 20, 24));
    InputEvent {
        tv_sec: self::from_u64_bits(sec_bits),
        tv_usec: self::from_u64_bits(usec_bits),
        type_,
        code,
        value: self::from_u32_bits(value_bits),
    }
}

/// Decodes every complete record in `buf`, as the capture path does after
/// one raw read; a trailing partial record is not a record and is dropped.
pub fn decode_events(buf: &[u8]) -> (out: Vec<InputEvent>)
    ensures
        out@.len() == buf@.len() as int / (EVENT_RECORD_SIZE as int),
        forall|i: int|
            0 <= i < out@.len() ==> out@[i] == spec_decode_event(
                buf@.subrange(i * (EVENT_RECORD_SIZE as int), (i + 1) * (EVENT_RECORD_SIZE as int)),
            ),
{
    let n = buf.len();
    let count = n / EVENT_RECORD_SIZE;
    proof {
        vstd::arithmetic::div_mod::lemma_fundamental_div_mod(n as int, EVENT_RECORD_SIZE as int);
        vstd::arithmetic::div_mod::lemma_mod_bound(n as int, EVENT_RECORD_SIZE as int);
    }
    let mut out: Vec<InputEvent> = Vec::new();
    let mut i: usize = 0;
    while i < count
        invariant
            n == buf@.len(),
            count == buf@.len() as int / (EVENT_RECORD_SIZE as int),
            i <= count,
            count * (EVENT_RECORD_SIZE as int) <= n,
            out@.len() == i,
            forall|j: int|
                0 <= j < i ==> out@[j] == spec_decode_event(
                    buf@.subrange(
                        j * (EVENT_RECORD_SIZE as int),
                        (j + 1) * (EVENT_RECORD_SIZE as int),
                    ),
                ),
        decreases count - i,
    {
        assert((i + 1) * (EVENT_RECORD_SIZE as int) <= count * (EVENT_RECORD_SIZE as int))
            by (nonlinear_arith)
            requires i + 1 <= count;
        let one = decode_event(slice_subrange(buf, i * EVENT_RECORD_SIZE, (i + 1) * EVENT_RECORD_SIZE));
        out.push(one);
        i = i + 1;
    }
    out
}

/// A record survives serialization unchanged: decoding its wire bytes
/// yields the record itself, on both the emission and the capture path.
pub proof fn lemma_event_codec_round_trip(ev: InputEvent)
    ensures
        spec_decode_event(spec_encode_event(ev)) == ev,
{
    lemma_auto_spec_u64_to_from_le_bytes();
    lemma_auto_spec_u16_to_from_le_bytes();
    lemma_auto_spec_u32_to_from_le_bytes();
    let s = spec_encode_event(ev);
    assert(s.subrange(0, 8) =~= spec_u64_to_le_bytes(ev.tv_sec as u64));
    assert(s.subrange(8, 16) =~= spec_u64_to_le_bytes(ev.tv_usec as u64));
    assert(s.subrange(16, 18) =~= spec_u16_to_le_bytes(ev.type_));
    assert(s.subrange(18, 20) =~= spec_u16_to_le_bytes(ev.code));
    assert(s.subrange(20, 24) =~= spec_u32_to_le_bytes(ev.value as u32));
    let sec = ev.tv_sec;
    let usec = ev.tv_usec;
    let value = ev.value;
    assert(((sec as u64) as i64) == sec) by (bit_vector);
    assert(((usec as u64) as i64) == usec) by (bit_vector);
    assert(((value as u32) as i32) == value) by (bit_vector);
}

/// Two's-complement bits of a signed 64-bit value.
fn to_u64_bits(x: i64) -> (r: u64)
    ensures
        r == x as u64,
{
    #[verifier::truncate] (x as u64)
}

/// The signed 64-bit value with the given two's-complement bits.
fn from_u64_bits(x: u64) -> (r: i64)
    ensures
        r == x as i64,
{
    #[verifier::truncate] (x as i64)
}

/// Two's-complement bits of a signed 32-bit value.
fn to_u32_bits(x: i32) -> (r: u32)
    ensures
        r == x as u32,
{
    #[verifier::truncate] (x as u32)
}

/// The signed 32-bit value with the given two's-complement bits.
fn from_u32_bits(x: u32) -> (r: i32)
    ensures
        r == x as i32,
{
    #[verifier::truncate] (x as i32)
}

} // verus!
