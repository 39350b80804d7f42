//! Capture discovery filtering: which physical devices join the poll set.
//!
//! Discovery reads two capability bitmaps per device node — the event-type
//! bitmap and, when key events are supported, the key-code bitmap — and
//! accepts only devices that look like a keyboard (at least one common
//! alphanumeric or editing key) or like a mouse (at least one standard
//! pointer button). Everything else, such as power buttons and lid
//! switches, is rejected and closed.

use crate::keys::{spec_key_code, Key};
use crate::records::{BTN_LEFT, BTN_MIDDLE, BTN_RIGHT, EV_KEY};
use vstd::prelude::*;

verus! {

/// Bytes of the event-type capability bitmap read per device.
pub const EV_BITS_BYTES: usize = 8;

/// Bytes of the key-code capability bitmap read per device.
pub const KEY_BITS_BYTES: usize = 96;

/// Whether bit `code` is set in the capability bitmap `s`; a code beyond
/// the bitmap is not set.
pub open spec fn spec_bit_is_set(s: Seq<u8>, code: u16) -> bool {
    &&& code as int / 8 < s.len()
    &&& s[code as int / 8] & (1u8 << (code % 8)) != 0
}

/// Tests one bit of a capability bitmap.
pub fn bit_is_set(buf: &[u8], code: u16) -> (r: bool)
    ensures
        r == spec_bit_is_set(buf@, code),
{
    let idx = (code / 8) as usize;
    if idx >= buf.len() {
        return false;
    }
    let mask = 1u8 << (code % 8);
    proof {
        assert(code % 8 < 8) by (bit_vector);
    }
    (buf[idx] & mask) != 0
}

/// Whether the key-code bitmap shows a common alphanumeric or editing key:
/// the keyboard heuristic of discovery.
pub open spec fn spec_has_keyboard_key(key_bits: Seq<u8>) -> bool {
    ||| spec_bit_is_set(key_bits, spec_key_code(Key::A))
    ||| spec_bit_is_set(key_bits, spec_key_code(Key::Q))
    ||| spec_bit_is_set(key_bits, spec_key_code(Key::Z))
    ||| spec_bit_is_set(key_bits, spec_key_code(Key::Num1))
    ||| spec_bit_is_set(key_bits, spec_key_code(Key::Enter))
    ||| spec_bit_is_set(key_bits, spec_key_code(Key::Space))
}

/// Whether the key-code bitmap shows a standard pointer button: the mouse
/// heuristic of discovery.
pub open spec fn spec_has_mouse_button(key_bits: Seq<u8>) -> bool {
    ||| spec_bit_is_set(key_bits, BTN_LEFT)
    ||| spec_bit_is_set(key_bits, BTN_RIGHT)
    ||| spec_bit_is_set(key_bits, BTN_MIDDLE)
}

/// Whether a device with these two capability bitmaps is accepted into
/// the poll set: it must support key events at all, and pass the keyboard
/// heuristic or the mouse heuristic.
pub open spec fn spec_device_eligible(ev_bits: Seq<u8>, key_bits: Seq<u8>) -> bool {
    &&& spec_bit_is_set(ev_bits, EV_KEY as u16)
    &&& (spec_has_keyboard_key(key_bits) || spec_has_mouse_button(key_bits))
}

/// The discovery filter: accepts a device if and only if its event-type
/// bitmap declares key support and its key-code bitmap contains at least
/// one common keyboard key or one standard pointer button.
pub fn device_has_basic_keys(ev_bits: &[u8], key_bits: &[u8]) -> (r: bool)
    ensures
        r == spec_device_eligible(ev_bits@, key_bits@),
{
    if !bit_is_set(ev_bits, EV_KEY) {
        return false;
    }
    let has_keyboard_key = bit_is_set(key_bits, Key::A.value()) || bit_is_set(
        key_bits,
        Key::Q.value(),
    ) || bit_is_set(key_bits, Key::Z.value()) || bit_is_set(key_bits, Key::Num1.value())
        || bit_is_set(key_bits, Key::Enter.value()) || bit_is_set(key_bits, Key::Space.value());

    let has_mouse_button = bit_is_set(key_bits, BTN_LEFT) || bit_is_set(key_bits, BTN_RIGHT)
        || bit_is_set(key_bits, BTN_MIDDLE);

    has_keyboard_key || has_mouse_button
}

/// Whether a directory entry under the input-device directory names an
/// event node: its name starts with the bytes of `event`.
pub open spec fn spec_is_event_node_name(name: Seq<u8>) -> bool {
    name.len() >= 5 && name.subrange(0, 5) == seq![101u8, 118u8, 101u8, 110u8, 116u8]
}

/// The discovery name filter: only `event*` entries are device nodes.
pub fn is_event_node_name(name: &[u8]) -> (r: bool)
    ensures
        r == spec_is_event_node_name(name@),
{
    if name.len() < 5 {
        return false;
    }
    let r = name[0] == 101 && name[1] == 118 && name[2] == 101 && name[3] == 110 && name[4] == 116;
    proof {
        if r {
            assert(name@.subrange(0, 5) =~= seq![101u8, 118u8, 101u8, 110u8, 116u8]);
        } else {
            assert(name@.subrange(0, 5) != seq![101u8, 118u8, 101u8, 110u8, 116u8]) by {
                let sub = name@.subrange(0, 5);
                let lit = seq![101u8, 118u8, 101u8, 110u8, 116u8];
                if sub == lit {
                    assert(sub[0] == 101 && sub[1] == 118 && sub[2] == 101 && sub[3] == 110
                        && sub[4] == 116);
                }
            };
        }
    }
    r
}

} // verus!
