//! Frames: the record sequences that one logical action expands into.
//!
//! A logical action becomes one to three data records followed by exactly
//! one synchronization record, which commits the frame atomically. A worker
//! additionally emits one teardown step at the end of its life; the
//! [`Emission`] stream carries both.

use crate::records::{InputEvent, ABS_X, ABS_Y, EV_ABS, EV_KEY, EV_REL, EV_SYN, REL_X, REL_Y, SYN_REPORT};
use vstd::prelude::*;

verus! {

/// One output step of a device worker: either a record written to the
/// device, or the single destroy-and-close teardown of the device.
#[derive(Clone, Copy, PartialEq, Eq, Structural, Debug)]
pub enum Emission {
    /// A record written to the virtual device.
    Record(InputEvent),
    /// The destroy-and-close call pair that ends the device's life.
    Teardown,
}

/// The frame-terminating synchronization record.
pub open spec fn spec_sync_record() -> InputEvent {
    InputEvent { tv_sec: 0, tv_usec: 0, type_: EV_SYN, code: SYN_REPORT, value: 0 }
}

/// A data record with a zeroed timestamp.
pub open spec fn spec_data_record(type_: u16, code: u16, value: i32) -> InputEvent {
    InputEvent { tv_sec: 0, tv_usec: 0, type_, code, value }
}

/// The frame of one key or button edge: the key record, then sync.
pub open spec fn spec_key_frame(code: u16, value: i32) -> Seq<InputEvent> {
    seq![spec_data_record(EV_KEY, code, value), spec_sync_record()]
}

/// The frame of one relative motion: an axis record per non-zero delta
/// (a zero delta is not emitted), then always one sync record.
pub open spec fn spec_rel_motion_frame(dx: i32, dy: i32) -> Seq<InputEvent> {
    (if dx != 0 { seq![spec_data_record(EV_REL, REL_X, dx)] } else { Seq::<InputEvent>::empty() })
        + (if dy != 0 { seq![spec_data_record(EV_REL, REL_Y, dy)] } else {
        Seq::<InputEvent>::empty()
    }) + seq![spec_sync_record()]
}

/// The frame of one absolute motion: both axis records, then sync.
pub open spec fn spec_abs_motion_frame(x: i32, y: i32) -> Seq<InputEvent> {
    seq![
        spec_data_record(EV_ABS, ABS_X, x),
        spec_data_record(EV_ABS, ABS_Y, y),
        spec_sync_record(),
    ]
}

/// The records of `s`, wrapped as worker emissions.
pub open spec fn spec_emissions_of(records: Seq<InputEvent>) -> Seq<Emission> {
    records.map_values(|ev: InputEvent| Emission::Record(ev))
}

/// How many teardown steps `s` contains.
pub open spec fn spec_teardown_count(s: Seq<Emission>) -> int
    decreases s.len(),
{
    if s.len() == 0 {
        0
    } else {
        spec_teardown_count(s.drop_last()) + (if s.last() is Teardown { 1int } else { 0int })
    }
}

/// The summed value of every relative-axis record for `code` in `s`.
pub open spec fn spec_rel_axis_sum(s: Seq<Emission>, code: u16) -> int
    decreases s.len(),
{
    if s.len() == 0 {
        0
    } else {
        spec_rel_axis_sum(s.drop_last(), code) + (match s.last() {
            Emission::Record(ev) => if ev.type_ == EV_REL && ev.code == code {
                ev.value as int
            } else {
                0int
            },
            Emission::Teardown => 0int,
        })
    }
}

/// Every frame is well formed: one to three data records, none of them a
/// synchronization record, followed by exactly one synchronization record
/// that commits the frame.
pub proof fn lemma_frames_well_formed(code: u16, value: i32, dx: i32, dy: i32, x: i32, y: i32)
    ensures
        ({
            let f = spec_key_frame(code, value);
            f.len() == 2 && f.last() == spec_sync_record() && forall|i: int|
                0 <= i < f.len() - 1 ==> !(#[trigger] f[i]).is_sync()
        }),
        ({
            let f = spec_rel_motion_frame(dx, dy);
            1 <= f.len() <= 3 && f.last() == spec_sync_record() && forall|i: int|
                0 <= i < f.len() - 1 ==> !(#[trigger] f[i]).is_sync()
        }),
        ({
            let f = spec_abs_motion_frame(x, y);
            f.len() == 3 && f.last() == spec_sync_record() && forall|i: int|
                0 <= i < f.len() - 1 ==> !(#[trigger] f[i]).is_sync()
        }),
{
    assert(spec_key_frame(code, value).last() == spec_sync_record());
    assert(spec_abs_motion_frame(x, y).last() == spec_sync_record());
    let f = spec_rel_motion_frame(dx, dy);
    if dx != 0 && dy != 0 {
        assert(f =~= seq![
            spec_data_record(EV_REL, REL_X, dx),
            spec_data_record(EV_REL, REL_Y, dy),
            spec_sync_record(),
        ]);
    } else if dx != 0 {
        assert(f =~= seq![spec_data_record(EV_REL, REL_X, dx), spec_sync_record()]);
    } else if dy != 0 {
        assert(f =~= seq![spec_data_record(EV_REL, REL_Y, dy), spec_sync_record()]);
    } else {
        assert(f =~= seq![spec_sync_record()]);
    }
}

/// Teardown counting distributes over concatenation.
pub proof fn lemma_teardown_count_append(a: Seq<Emission>, b: Seq<Emission>)
    ensures
        spec_teardown_count(a + b) == spec_teardown_count(a) + spec_teardown_count(b),
    decreases b.len(),
{
    if b.len() == 0 {
        assert(a + b =~= a);
    } else {
        assert((a + b).drop_last() =~= a + b.drop_last());
        lemma_teardown_count_append(a, b.drop_last());
    }
}

/// Axis summing distributes over concatenation.
pub proof fn lemma_rel_axis_sum_append(a: Seq<Emission>, b: Seq<Emission>, code: u16)
    ensures
        spec_rel_axis_sum(a + b, code) == spec_rel_axis_sum(a, code) + spec_rel_axis_sum(b, code),
    decreases b.len(),
{
    if b.len() == 0 {
        assert(a + b =~= a);
    } else {
        assert((a + b).drop_last() =~= a + b.drop_last());
        lemma_rel_axis_sum_append(a, b.drop_last(), code);
    }
}

/// Record emissions contain no teardown.
pub proof fn lemma_records_have_no_teardown(records: Seq<InputEvent>)
    ensures
        spec_teardown_count(spec_emissions_of(records)) == 0,
    decreases records.len(),
{
    if records.len() > 0 {
        assert(spec_emissions_of(records).drop_last() =~= spec_emissions_of(records.drop_last()));
        lemma_records_have_no_teardown(records.drop_last());
    }
}

/// A key or button frame carries no relative-axis displacement.
pub proof fn lemma_key_frame_axis_sum(code: u16, value: i32, axis: u16)
    ensures
        spec_rel_axis_sum(spec_emissions_of(spec_key_frame(code, value)), axis) == 0,
{
    let s = spec_emissions_of(spec_key_frame(code, value));
    assert(s.drop_last().drop_last() =~= Seq::<Emission>::empty());
    reveal_with_fuel(spec_rel_axis_sum, 3);
}

/// A relative motion frame carries exactly its two deltas: the summed
/// horizontal displacement is `dx` and the vertical one is `dy`.
pub proof fn lemma_rel_motion_frame_axis_sum(dx: i32, dy: i32)
    ensures
        spec_rel_axis_sum(spec_emissions_of(spec_rel_motion_frame(dx, dy)), REL_X) == dx as int,
        spec_rel_axis_sum(spec_emissions_of(spec_rel_motion_frame(dx, dy)), REL_Y) == dy as int,
        spec_teardown_count(spec_emissions_of(spec_rel_motion_frame(dx, dy))) == 0,
{
    let s = spec_emissions_of(spec_rel_motion_frame(dx, dy));
    lemma_records_have_no_teardown(spec_rel_motion_frame(dx, dy));
    if dx != 0 && dy != 0 {
        assert(s =~= seq![
            Emission::Record(spec_data_record(EV_REL, REL_X, dx)),
            Emission::Record(spec_data_record(EV_REL, REL_Y, dy)),
            Emission::Record(spec_sync_record()),
        ]);
        assert(s.drop_last().drop_last().drop_last() =~= Seq::<Emission>::empty());
        reveal_with_fuel(spec_rel_axis_sum, 4);
    } else if dx != 0 {
        assert(s =~= seq![
            Emission::Record(spec_data_record(EV_REL, REL_X, dx)),
            Emission::Record(spec_sync_record()),
        ]);
        assert(s.drop_last().drop_last() =~= Seq::<Emission>::empty());
        reveal_with_fuel(spec_rel_axis_sum, 3);
    } else if dy != 0 {
        assert(s =~= seq![
            Emission::Record(spec_data_record(EV_REL, REL_Y, dy)),
            Emission::Record(spec_sync_record()),
        ]);
        assert(s.drop_last().drop_last() =~= Seq::<Emission>::empty());
        reveal_with_fuel(spec_rel_axis_sum, 3);
    } else {
        assert(s =~= seq![Emission::Record(spec_sync_record())]);
        assert(s.drop_last() =~= Seq::<Emission>::empty());
        reveal_with_fuel(spec_rel_axis_sum, 2);
    }
}

/// Builds one key or button frame.
pub fn key_frame(code: u16, value: i32) -> (out: Vec<Emission>)
    ensures
        out@ == spec_emissions_of(spec_key_frame(code, value)),
{
    let mut out: Vec<Emission> = Vec::new();
    out.push(Emission::Record(InputEvent::new(EV_KEY, code, value)));
    out.push(Emission::Record(InputEvent::new(EV_SYN, SYN_REPORT, 0)));
    proof {
        assert(out@ =~= spec_emissions_of(spec_key_frame(code, value)));
    }
    out
}

/// Builds one relative motion frame, skipping zero-delta axes.
pub fn rel_motion_frame(dx: i32, dy: i32) -> (out: Vec<Emission>)
    ensures
        out@ == spec_emissions_of(spec_rel_motion_frame(dx, dy)),
{
    let mut out: Vec<Emission> = Vec::new();
    if dx != 0 {
        out.push(Emission::Record(InputEvent::new(EV_REL, REL_X, dx)));
    }
    if dy != 0 {
        out.push(Emission::Record(InputEvent::new(EV_REL, REL_Y, dy)));
    }
    out.push(Emission::Record(InputEvent::new(EV_SYN, SYN_REPORT, 0)));
    proof {
        assert(out@ =~= spec_emissions_of(spec_rel_motion_frame(dx, dy)));
    }
    out
}

/// Builds one absolute motion frame.
pub fn abs_motion_frame(x: i32, y: i32) -> (out: Vec<Emission>)
    ensures
        out@ == spec_emissions_of(spec_abs_motion_frame(x, y)),
{
    let mut out: Vec<Emission> = Vec::new();
    out.push(Emission::Record(InputEvent::new(EV_ABS, ABS_X, x)));
    out.push(Emission::Record(InputEvent::new(EV_ABS, ABS_Y, y)));
    out.push(Emission::Record(InputEvent::new(EV_SYN, SYN_REPORT, 0)));
    proof {
        assert(out@ =~= spec_emissions_of(spec_abs_motion_frame(x, y)));
    }
    out
}

} // verus!
