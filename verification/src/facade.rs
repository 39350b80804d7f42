//! The convenience layer's pure parts: pixel-to-axis scaling for the
//! absolute mouse, and the action plans behind clicks and typed text.
//!
//! Scaling maps a pixel coordinate in `[0, size)` linearly onto the
//! declared absolute axis range `[0, 65535]`, clamping the input to the
//! rectangle first; a degenerate axis of size one or less maps everything
//! to zero.

use crate::keys::{spec_key_code, Key};
use crate::records::{BTN_LEFT, BTN_MIDDLE, BTN_RIGHT};
use crate::workers::{KeyboardAction, KeyboardMsg};
use vstd::arithmetic::div_mod::{
    lemma_basic_div, lemma_div_nonincreasing, lemma_fundamental_div_mod_converse,
};
use vstd::prelude::*;

verus! {

/// Top of the absolute axis range each virtual mouse axis is declared with.
pub const AXIS_MAX: i32 = 65535;

/// `px` clamped into the pixel rectangle `[0, size_px)`.
pub open spec fn spec_clamp_px(px: int, size_px: int) -> int {
    if px < 0 {
        0
    } else if px > size_px - 1 {
        size_px - 1
    } else {
        px
    }
}

/// The axis value for pixel `px` on an axis of `size_px` pixels: the
/// clamped pixel scaled into `[0, 65535]` with round-to-nearest, or zero
/// on a degenerate axis.
pub open spec fn spec_abs_from_px(px: int, size_px: int) -> int {
    if size_px <= 1 {
        0
    } else {
        (spec_clamp_px(px, size_px) * 65535 + (size_px - 2) / 2) / (size_px - 1)
    }
}

/// Scales one pixel coordinate onto the absolute axis range.
pub fn abs_from_px(px: i32, size_px: i32) -> (r: i32)
    ensures
        r == spec_abs_from_px(px as int, size_px as int),
        0 <= r <= AXIS_MAX,
{
    if size_px <= 1 {
        return 0;
    }
    let clamped: i32 = if px < 0 {
        0
    } else if px > size_px - 1 {
        size_px - 1
    } else {
        px
    };
    let p = clamped as u64;
    let s = size_px as u64;
    let num: u64 = p * 65535 + (s - 2) / 2;
    let r: u64 = num / (s - 1);
    proof {
        lemma_scaling_in_range(clamped as int, size_px as int);
        assert(p * 65535 == clamped as int * 65535) by (nonlinear_arith)
            requires p == clamped as int, 0 <= p;
    }
    r as i32
}

/// On a non-degenerate axis the scaled value of an in-range pixel lies in
/// `[0, 65535]`, pixel zero maps to axis zero, and the last pixel maps to
/// the top of the axis range.
pub proof fn lemma_scaling_in_range(px: int, size_px: int)
    requires
        size_px >= 2,
        0 <= px <= size_px - 1,
    ensures
        0 <= spec_abs_from_px(px, size_px) <= 65535,
        px == 0 ==> spec_abs_from_px(px, size_px) == 0,
        px == size_px - 1 ==> spec_abs_from_px(px, size_px) == 65535,
{
    let d = size_px - 1;
    let half = (size_px - 2) / 2;
    assert(0 <= half < d) by {
        lemma_div_nonincreasing(size_px - 2, 2);
        vstd::arithmetic::div_mod::lemma_div_pos_is_pos(size_px - 2, 2);
    };
    let num = px * 65535 + half;
    assert(0 <= px * 65535 <= d * 65535) by (nonlinear_arith)
        requires 0 <= px <= d;
    assert(num / d <= 65535) by {
        assert(num <= d * 65535 + half);
        assert(num < d * 65536) by (nonlinear_arith)
            requires num <= d * 65535 + half, half < d;
        lemma_div_strictly_bounded(num, d, 65536);
    };
    assert(num / d >= 0) by {
        vstd::arithmetic::div_mod::lemma_div_pos_is_pos(num, d);
    };
    if px == 0 {
        assert(num == half);
        lemma_basic_div(half, d);
    }
    if px == d {
        assert(num == 65535 * d + half) by (nonlinear_arith)
            requires num == d * 65535 + half;
        lemma_fundamental_div_mod_converse(num, d, 65535, half);
    }
}

/// A quotient is below `q` when the dividend is below `q * d`.
proof fn lemma_div_strictly_bounded(x: int, d: int, q: int)
    requires
        d > 0,
        0 <= x,
        x < d * q,
    ensures
        x / d < q,
{
    vstd::arithmetic::div_mod::lemma_fundamental_div_mod(x, d);
    vstd::arithmetic::div_mod::lemma_mod_bound(x, d);
    assert((x / d) < q) by (nonlinear_arith)
        requires
            d > 0,
            x == d * (x / d) + x % d,
            0 <= x % d < d,
            x < d * q;
}

/// The message plan of one click: press the key, then release it.
pub fn click_msgs(key: Key) -> (out: Vec<KeyboardMsg>)
    ensures
        out@ == seq![
            KeyboardMsg::Action(KeyboardAction::Press(spec_key_code(key))),
            KeyboardMsg::Action(KeyboardAction::Release(spec_key_code(key))),
        ],
{
    let code = key.value();
    let mut out: Vec<KeyboardMsg> = Vec::new();
    out.push(KeyboardMsg::Action(KeyboardAction::Press(code)));
    out.push(KeyboardMsg::Action(KeyboardAction::Release(code)));
    proof {
        assert(out@ =~= seq![
            KeyboardMsg::Action(KeyboardAction::Press(spec_key_code(key))),
            KeyboardMsg::Action(KeyboardAction::Release(spec_key_code(key))),
        ]);
    }
    out
}

/// The message plan of typing a key sequence: a click per key, in order.
pub open spec fn spec_text_msgs(keys: Seq<Key>) -> Seq<KeyboardMsg>
    decreases keys.len(),
{
    if keys.len() == 0 {
        Seq::<KeyboardMsg>::empty()
    } else {
        seq![
            KeyboardMsg::Action(KeyboardAction::Press(spec_key_code(keys[0]))),
            KeyboardMsg::Action(KeyboardAction::Release(spec_key_code(keys[0]))),
        ] + spec_text_msgs(keys.skip(1))
    }
}

/// Plans the message sequence that types `keys`.
pub fn text_msgs(keys: &Vec<Key>) -> (out: Vec<KeyboardMsg>)
    ensures
        out@ == spec_text_msgs(keys@),
{
    let mut out: Vec<KeyboardMsg> = Vec::new();
    let mut i: usize = 0;
    proof {
        assert(keys@.skip(0) =~= keys@);
        assert(out@ + spec_text_msgs(keys@) =~= spec_text_msgs(keys@));
    }
    while i < keys.len()
        invariant
            i <= keys@.len(),
            spec_text_msgs(keys@) == out@ + spec_text_msgs(keys@.skip(i as int)),
        decreases keys@.len() - i,
    {
        proof {
            assert(keys@.skip(i as int)[0] == keys@[i as int]);
            assert(keys@.skip(i as int).skip(1) =~= keys@.skip(i as int + 1));
        }
        let mut one = click_msgs(keys[i]);
        out.append(&mut one);
        i = i + 1;
        proof {
            assert(spec_text_msgs(keys@) =~= out@ + spec_text_msgs(keys@.skip(i as int)));
        }
    }
    proof {
        assert(keys@.skip(i as int) =~= Seq::<Key>::empty());
        assert(spec_text_msgs(keys@) =~= out@);
    }
    out
}

} // verus!
