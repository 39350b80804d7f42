//! The relative-mouse worker: the one worker that coalesces motion.
//!
//! Move actions arriving in rapid succession are summed into a single net
//! displacement instead of being emitted one-for-one, because per-record
//! overhead dominates at high input rates. The policy implemented here is
//! emit-on-elapsed-pacing: a pass over the drained messages accumulates
//! deltas, and the net motion is emitted at the end of the pass if the
//! pacing interval has elapsed since the last emission, else it stays
//! queued for a later pass. A button action flushes any queued motion
//! first, so displacement and clicks never reorder; a shutdown observed
//! mid-pass flushes any buffered non-zero displacement and then tears the
//! device down. Total displacement is preserved exactly — see
//! [`lemma_pass_preserves_displacement`] and
//! [`lemma_worker_displacement_preserved`].

use crate::frames::{
    key_frame, lemma_key_frame_axis_sum, lemma_records_have_no_teardown,
    lemma_rel_axis_sum_append, lemma_rel_motion_frame_axis_sum, lemma_teardown_count_append,
    rel_motion_frame, spec_emissions_of, spec_key_frame, spec_rel_axis_sum,
    spec_rel_motion_frame, spec_teardown_count, Emission,
};
use crate::records::{REL_X, REL_Y};
use vstd::prelude::*;

verus! {

/// Most messages one coalescing pass may drain beyond the first: the
/// count guard that keeps a fast producer burst from stalling emission.
pub const REL_MOUSE_DRAIN_LIMIT: usize = 100;

/// Wall-clock budget of one drain, in microseconds: the time guard that
/// bounds a pass even when messages keep arriving.
pub const REL_MOUSE_DRAIN_BUDGET_MICROS: u64 = 200;

/// An action valid for a relative-motion mouse device.
#[derive(Clone, Copy, PartialEq, Eq, Structural, Debug)]
pub enum RelativeMouseAction {
    /// Move by this delta.
    Move(i32, i32),
    /// Press the button with this code.
    Press(u16),
    /// Release the button with this code.
    Release(u16),
}

/// A message on a relative-mouse worker's action channel.
#[derive(Clone, Copy, PartialEq, Eq, Structural, Debug)]
pub enum RelativeMouseMsg {
    /// Perform one action.
    Action(RelativeMouseAction),
    /// Stop and tear the device down.
    Shutdown,
}

/// A net displacement, kept as unbounded integers in specifications.
pub struct Displacement {
    /// Horizontal component.
    pub x: int,
    /// Vertical component.
    pub y: int,
}

/// What one coalescing pass computes from the queued displacement and the
/// drained messages.
pub struct PassResult {
    /// The emissions of the pass, in order.
    pub out: Seq<Emission>,
    /// The displacement still queued after the pass.
    pub qx: int,
    /// The displacement still queued after the pass.
    pub qy: int,
    /// Whether the pass processed a shutdown and tore the device down.
    pub done: bool,
    /// The summed deltas of the move actions the pass absorbed.
    pub in_x: int,
    /// The summed deltas of the move actions the pass absorbed.
    pub in_y: int,
}

/// The flush emitted before a button or a teardown: the queued motion's
/// frame if any displacement is buffered, nothing otherwise.
pub open spec fn spec_flush_frame(qx: int, qy: int) -> Seq<Emission> {
    if qx != 0 || qy != 0 {
        spec_emissions_of(spec_rel_motion_frame(qx as i32, qy as i32))
    } else {
        Seq::<Emission>::empty()
    }
}

/// One coalescing pass: starting from queued displacement `(qx, qy)`,
/// process the drained messages in order. Moves accumulate; a button
/// flushes queued motion and emits its own frame; a shutdown flushes and
/// tears down, ignoring whatever was drained after it. If the pass ends
/// with no shutdown and the pacing interval has elapsed, the net motion is
/// emitted — with its sync record always, even for a zero net — else it
/// stays queued.
pub open spec fn spec_rel_pass(
    qx: int,
    qy: int,
    msgs: Seq<RelativeMouseMsg>,
    pacing_elapsed: bool,
) -> PassResult
    decreases msgs.len(),
{
    if msgs.len() == 0 {
        if pacing_elapsed {
            PassResult {
                out: spec_emissions_of(spec_rel_motion_frame(qx as i32, qy as i32)),
                qx: 0,
                qy: 0,
                done: false,
                in_x: 0,
                in_y: 0,
            }
        } else {
            PassResult { out: Seq::<Emission>::empty(), qx, qy, done: false, in_x: 0, in_y: 0 }
        }
    } else {
        match msgs[0] {
            RelativeMouseMsg::Action(RelativeMouseAction::Move(dx, dy)) => {
                let r = spec_rel_pass(qx + dx, qy + dy, msgs.skip(1), pacing_elapsed);
                PassResult { in_x: r.in_x + dx, in_y: r.in_y + dy, ..r }
            },
            RelativeMouseMsg::Action(RelativeMouseAction::Press(code)) => {
                let r = spec_rel_pass(0, 0, msgs.skip(1), pacing_elapsed);
                PassResult {
                    out: spec_flush_frame(qx, qy) + spec_emissions_of(spec_key_frame(code, 1))
                        + r.out,
                    ..r
                }
            },
            RelativeMouseMsg::Action(RelativeMouseAction::Release(code)) => {
                let r = spec_rel_pass(0, 0, msgs.skip(1), pacing_elapsed);
                PassResult {
                    out: spec_flush_frame(qx, qy) + spec_emissions_of(spec_key_frame(code, 0))
                        + r.out,
                    ..r
                }
            },
            RelativeMouseMsg::Shutdown => PassResult {
                out: spec_flush_frame(qx, qy) + seq![Emission::Teardown],
                qx: 0,
                qy: 0,
                done: true,
                in_x: 0,
                in_y: 0,
            },
        }
    }
}

/// Every intermediate queued displacement of a pass stays within the
/// 32-bit range a record value can carry.
pub open spec fn spec_pass_fits(qx: int, qy: int, msgs: Seq<RelativeMouseMsg>) -> bool
    decreases msgs.len(),
{
    if msgs.len() == 0 {
        true
    } else {
        match msgs[0] {
            RelativeMouseMsg::Action(RelativeMouseAction::Move(dx, dy)) => {
                &&& i32::MIN <= qx + dx <= i32::MAX
                &&& i32::MIN <= qy + dy <= i32::MAX
                &&& spec_pass_fits(qx + dx, qy + dy, msgs.skip(1))
            },
            RelativeMouseMsg::Action(RelativeMouseAction::Press(_)) => spec_pass_fits(
                0,
                0,
                msgs.skip(1),
            ),
            RelativeMouseMsg::Action(RelativeMouseAction::Release(_)) => spec_pass_fits(
                0,
                0,
                msgs.skip(1),
            ),
            RelativeMouseMsg::Shutdown => true,
        }
    }
}

/// Whether the drained messages reach a shutdown.
pub open spec fn spec_contains_shutdown(msgs: Seq<RelativeMouseMsg>) -> bool
    decreases msgs.len(),
{
    msgs.len() > 0 && (msgs[0] is Shutdown || spec_contains_shutdown(msgs.skip(1)))
}

/// Coalescing preserves total displacement exactly: over one pass, what
/// was emitted plus what stays queued equals what was queued before plus
/// every move delta the pass absorbed — for each axis.
pub proof fn lemma_pass_preserves_displacement(
    qx: int,
    qy: int,
    msgs: Seq<RelativeMouseMsg>,
    pacing_elapsed: bool,
)
    requires
        i32::MIN <= qx <= i32::MAX,
        i32::MIN <= qy <= i32::MAX,
        spec_pass_fits(qx, qy, msgs),
    ensures
        ({
            let r = spec_rel_pass(qx, qy, msgs, pacing_elapsed);
            &&& spec_rel_axis_sum(r.out, REL_X) + r.qx == qx + r.in_x
            &&& spec_rel_axis_sum(r.out, REL_Y) + r.qy == qy + r.in_y
        }),
    decreases msgs.len(),
{
    if msgs.len() == 0 {
        if pacing_elapsed {
            lemma_rel_motion_frame_axis_sum(qx as i32, qy as i32);
        }
    } else {
        match msgs[0] {
            RelativeMouseMsg::Action(RelativeMouseAction::Move(dx, dy)) => {
                lemma_pass_preserves_displacement(qx + dx, qy + dy, msgs.skip(1), pacing_elapsed);
            },
            RelativeMouseMsg::Action(RelativeMouseAction::Press(code)) => {
                lemma_pass_preserves_displacement(0, 0, msgs.skip(1), pacing_elapsed);
                lemma_flush_axis_sum(qx, qy);
                lemma_key_frame_axis_sum(code, 1, REL_X);
                lemma_key_frame_axis_sum(code, 1, REL_Y);
                let r = spec_rel_pass(0, 0, msgs.skip(1), pacing_elapsed);
                let flush = spec_flush_frame(qx, qy);
                let kf = spec_emissions_of(spec_key_frame(code, 1));
                lemma_rel_axis_sum_append(flush, kf, REL_X);
                lemma_rel_axis_sum_append(flush + kf, r.out, REL_X);
                lemma_rel_axis_sum_append(flush, kf, REL_Y);
                lemma_rel_axis_sum_append(flush + kf, r.out, REL_Y);
            },
            RelativeMouseMsg::Action(RelativeMouseAction::Release(code)) => {
                lemma_pass_preserves_displacement(0, 0, msgs.skip(1), pacing_elapsed);
                lemma_flush_axis_sum(qx, qy);
                lemma_key_frame_axis_sum(code, 0, REL_X);
                lemma_key_frame_axis_sum(code, 0, REL_Y);
                let r = spec_rel_pass(0, 0, msgs.skip(1), pacing_elapsed);
                let flush = spec_flush_frame(qx, qy);
                let kf = spec_emissions_of(spec_key_frame(code, 0));
                lemma_rel_axis_sum_append(flush, kf, REL_X);
                lemma_rel_axis_sum_append(flush + kf, r.out, REL_X);
                lemma_rel_axis_sum_append(flush, kf, REL_Y);
                lemma_rel_axis_sum_append(flush + kf, r.out, REL_Y);
            },
            RelativeMouseMsg::Shutdown => {
                lemma_flush_axis_sum(qx, qy);
                let flush = spec_flush_frame(qx, qy);
                lemma_rel_axis_sum_append(flush, seq![Emission::Teardown], REL_X);
                lemma_rel_axis_sum_append(flush, seq![Emission::Teardown], REL_Y);
                reveal_with_fuel(spec_rel_axis_sum, 2);
            },
        }
    }
}

/// A pass emits exactly one teardown when it reaches a shutdown and none
/// otherwise, and ends the worker exactly then.
pub proof fn lemma_pass_teardown(
    qx: int,
    qy: int,
    msgs: Seq<RelativeMouseMsg>,
    pacing_elapsed: bool,
)
    ensures
        ({
            let r = spec_rel_pass(qx, qy, msgs, pacing_elapsed);
            &&& r.done == spec_contains_shutdown(msgs)
            &&& spec_teardown_count(r.out) == if r.done { 1int } else { 0int }
        }),
    decreases msgs.len(),
{
    if msgs.len() == 0 {
        if pacing_elapsed {
            lemma_records_have_no_teardown(spec_rel_motion_frame(qx as i32, qy as i32));
        }
    } else {
        match msgs[0] {
            RelativeMouseMsg::Action(RelativeMouseAction::Move(dx, dy)) => {
                lemma_pass_teardown(qx + dx, qy + dy, msgs.skip(1), pacing_elapsed);
            },
            RelativeMouseMsg::Action(RelativeMouseAction::Press(code)) => {
                lemma_pass_teardown(0, 0, msgs.skip(1), pacing_elapsed);
                lemma_flush_teardown(qx, qy);
                lemma_records_have_no_teardown(spec_key_frame(code, 1));
                let r = spec_rel_pass(0, 0, msgs.skip(1), pacing_elapsed);
                let flush = spec_flush_frame(qx, qy);
                let kf = spec_emissions_of(spec_key_frame(code, 1));
                lemma_teardown_count_append(flush, kf);
                lemma_teardown_count_append(flush + kf, r.out);
            },
            RelativeMouseMsg::Action(RelativeMouseAction::Release(code)) => {
                lemma_pass_teardown(0, 0, msgs.skip(1), pacing_elapsed);
                lemma_flush_teardown(qx, qy);
                lemma_records_have_no_teardown(spec_key_frame(code, 0));
                let r = spec_rel_pass(0, 0, msgs.skip(1), pacing_elapsed);
                let flush = spec_flush_frame(qx, qy);
                let kf = spec_emissions_of(spec_key_frame(code, 0));
                lemma_teardown_count_append(flush, kf);
                lemma_teardown_count_append(flush + kf, r.out);
            },
            RelativeMouseMsg::Shutdown => {
                lemma_flush_teardown(qx, qy);
                let flush = spec_flush_frame(qx, qy);
                lemma_teardown_count_append(flush, seq![Emission::Teardown]);
                reveal_with_fuel(spec_teardown_count, 2);
            },
        }
    }
}

/// The flush carries exactly the queued displacement and no teardown.
proof fn lemma_flush_axis_sum(qx: int, qy: int)
    requires
        i32::MIN <= qx <= i32::MAX,
        i32::MIN <= qy <= i32::MAX,
    ensures
        spec_rel_axis_sum(spec_flush_frame(qx, qy), REL_X) == qx,
        spec_rel_axis_sum(spec_flush_frame(qx, qy), REL_Y) == qy,
{
    if qx != 0 || qy != 0 {
        lemma_rel_motion_frame_axis_sum(qx as i32, qy as i32);
    }
}

proof fn lemma_flush_teardown(qx: int, qy: int)
    ensures
        spec_teardown_count(spec_flush_frame(qx, qy)) == 0,
{
    if qx != 0 || qy != 0 {
        lemma_records_have_no_teardown(spec_rel_motion_frame(qx as i32, qy as i32));
    }
}

/// The worker of one virtual relative-motion mouse device.
pub struct RelativeMouseWorker {
    queued_dx: i32,
    queued_dy: i32,
    done: bool,
    absorbed: Ghost<Displacement>,
    emitted: Ghost<Displacement>,
}

impl RelativeMouseWorker {
    /// Whether the worker has torn its device down.
    pub closed spec fn is_done(self) -> bool {
        self.done
    }

    /// The displacement accumulated but not yet emitted.
    pub closed spec fn queued_x(self) -> int {
        self.queued_dx as int
    }

    /// The displacement accumulated but not yet emitted.
    pub closed spec fn queued_y(self) -> int {
        self.queued_dy as int
    }

    /// The total displacement of every move action absorbed so far.
    pub closed spec fn total_absorbed(self) -> Displacement {
        self.absorbed@
    }

    /// The total displacement of every relative-axis record emitted so far.
    pub closed spec fn total_emitted(self) -> Displacement {
        self.emitted@
    }

    /// The worker's accounting invariant: what came in is what went out
    /// plus what is still queued; once torn down, nothing is queued.
    pub closed spec fn inv(self) -> bool {
        &&& self.absorbed@.x == self.emitted@.x + self.queued_dx
        &&& self.absorbed@.y == self.emitted@.y + self.queued_dy
        &&& self.done ==> self.queued_dx == 0 && self.queued_dy == 0
    }

    /// A worker that has just taken ownership of a live device.
    pub fn new() -> (w: RelativeMouseWorker)
        ensures
            !w.is_done(),
            w.inv(),
            w.queued_x() == 0,
            w.queued_y() == 0,
            w.total_absorbed() == (Displacement { x: 0, y: 0 }),
            w.total_emitted() == (Displacement { x: 0, y: 0 }),
    {
        RelativeMouseWorker {
            queued_dx: 0,
            queued_dy: 0,
            done: false,
            absorbed: Ghost(Displacement { x: 0, y: 0 }),
            emitted: Ghost(Displacement { x: 0, y: 0 }),
        }
    }

    /// The displacement accumulated but not yet emitted, as the caller
    /// sees it when bounding a drain.
    pub fn queued_motion(&self) -> (r: (i32, i32))
        ensures
            r.0 as int == self.queued_x(),
            r.1 as int == self.queued_y(),
    {
        (self.queued_dx, self.queued_dy)
    }

    /// One wake of the worker: processes the first received message and
    /// everything the caller drained behind it in one coalescing pass.
    /// `pacing_elapsed` says whether the pacing interval has elapsed since
    /// the last emission; the caller bounds the drain by a maximum message
    /// count and a wall-clock budget so a producer burst cannot stall
    /// emission, and performs the returned emissions in order.
    pub fn run_pass(&mut self, batch: &Vec<RelativeMouseMsg>, pacing_elapsed: bool) -> (out: Vec<
        Emission,
    >)
        requires
            !old(self).is_done(),
            old(self).inv(),
            spec_pass_fits(old(self).queued_x(), old(self).queued_y(), batch@),
        ensures
            final(self).inv(),
            ({
                let r = spec_rel_pass(
                    old(self).queued_x(),
                    old(self).queued_y(),
                    batch@,
                    pacing_elapsed,
                );
                &&& out@ == r.out
                &&& final(self).queued_x() == r.qx
                &&& final(self).queued_y() == r.qy
                &&& final(self).is_done() == r.done
                &&& final(self).total_absorbed().x == old(self).total_absorbed().x + r.in_x
                &&& final(self).total_absorbed().y == old(self).total_absorbed().y + r.in_y
                &&& final(self).total_emitted().x == old(self).total_emitted().x
                    + spec_rel_axis_sum(out@, REL_X)
                &&& final(self).total_emitted().y == old(self).total_emitted().y
                    + spec_rel_axis_sum(out@, REL_Y)
            }),
    {
        let ghost q0x = self.queued_dx as int;
        let ghost q0y = self.queued_dy as int;
        let ghost a0 = self.absorbed@;
        let ghost e0 = self.emitted@;
        let ghost r_total = spec_rel_pass(q0x, q0y, batch@, pacing_elapsed);
        let mut out: Vec<Emission> = Vec::new();
        let mut i: usize = 0;
        proof {
            assert(batch@.skip(0) =~= batch@);
            assert(out@ + r_total.out =~= r_total.out);
        }
        while i < batch.len() && !self.done
            invariant
                i <= batch@.len(),
                self.inv(),
                r_total == spec_rel_pass(q0x, q0y, batch@, pacing_elapsed),
                self.emitted@.x == e0.x + spec_rel_axis_sum(out@, REL_X),
                self.emitted@.y == e0.y + spec_rel_axis_sum(out@, REL_Y),
                !self.done ==> ({
                    let r_rem = spec_rel_pass(
                        self.queued_dx as int,
                        self.queued_dy as int,
                        batch@.skip(i as int),
                        pacing_elapsed,
                    );
                    &&& spec_pass_fits(
                        self.queued_dx as int,
                        self.queued_dy as int,
                        batch@.skip(i as int),
                    )
                    &&& r_total.out == out@ + r_rem.out
                    &&& r_total.qx == r_rem.qx
                    &&& r_total.qy == r_rem.qy
                    &&& r_total.done == r_rem.done
                    &&& r_total.in_x == self.absorbed@.x - a0.x + r_rem.in_x
                    &&& r_total.in_y == self.absorbed@.y - a0.y + r_rem.in_y
                }),
                self.done ==> ({
                    &&& r_total.done
                    &&& out@ == r_total.out
                    &&& self.queued_dx as int == r_total.qx
                    &&& self.queued_dy as int == r_total.qy
                    &&& self.absorbed@.x == a0.x + r_total.in_x
                    &&& self.absorbed@.y == a0.y + r_total.in_y
                }),
            decreases batch@.len() - i,
        {
            proof {
                assert(batch@.skip(i as int)[0] == batch@[i as int]);
                assert(batch@.skip(i as int).skip(1) =~= batch@.skip(i as int + 1));
            }
            let ghost qix = self.queued_dx as int;
            let ghost qiy = self.queued_dy as int;
            let msg = batch[i];
            match msg {
                RelativeMouseMsg::Action(RelativeMouseAction::Move(dx, dy)) => {
                    self.queued_dx = self.queued_dx + dx;
                    self.queued_dy = self.queued_dy + dy;
                    proof {
                        self.absorbed@ = Displacement {
                            x: self.absorbed@.x + dx,
                            y: self.absorbed@.y + dy,
                        };
                    }
                },
                RelativeMouseMsg::Action(RelativeMouseAction::Press(code)) => {
                    let mut frame = self.flush_and_button(code, 1);
                    proof {
                        lemma_rel_axis_sum_append(out@, frame@, REL_X);
                        lemma_rel_axis_sum_append(out@, frame@, REL_Y);
                    }
                    out.append(&mut frame);
                    proof {
                        let r_rem = spec_rel_pass(0, 0, batch@.skip(i as int + 1), pacing_elapsed);
                        assert(r_total.out =~= out@ + r_rem.out);
                    }
                },
                RelativeMouseMsg::Action(RelativeMouseAction::Release(code)) => {
                    let mut frame = self.flush_and_button(code, 0);
                    proof {
                        lemma_rel_axis_sum_append(out@, frame@, REL_X);
                        lemma_rel_axis_sum_append(out@, frame@, REL_Y);
                    }
                    out.append(&mut frame);
                    proof {
                        let r_rem = spec_rel_pass(0, 0, batch@.skip(i as int + 1), pacing_elapsed);
                        assert(r_total.out =~= out@ + r_rem.out);
                    }
                },
                RelativeMouseMsg::Shutdown => {
                    let mut frame = self.flush_queued();
                    frame.push(Emission::Teardown);
                    proof {
                        lemma_rel_axis_sum_append(out@, frame@, REL_X);
                        lemma_rel_axis_sum_append(out@, frame@, REL_Y);
                        assert(frame@.drop_last() =~= spec_flush_frame(qix, qiy));
                        assert(frame@ =~= spec_flush_frame(qix, qiy) + seq![Emission::Teardown]);
                        assert(spec_rel_axis_sum(frame@, REL_X) == spec_rel_axis_sum(
                            frame@.drop_last(),
                            REL_X,
                        ));
                        assert(spec_rel_axis_sum(frame@, REL_Y) == spec_rel_axis_sum(
                            frame@.drop_last(),
                            REL_Y,
                        ));
                    }
                    out.append(&mut frame);
                    self.done = true;
                    proof {
                        assert(r_total.out =~= out@);
                    }
                },
            }
            i = i + 1;
        }
        if !self.done {
            proof {
                assert(batch@.skip(i as int) =~= Seq::<RelativeMouseMsg>::empty());
            }
            if pacing_elapsed {
                let qx = self.queued_dx;
                let qy = self.queued_dy;
                self.queued_dx = 0;
                self.queued_dy = 0;
                proof {
                    self.emitted@ = Displacement {
                        x: self.emitted@.x + qx as int,
                        y: self.emitted@.y + qy as int,
                    };
                }
                let mut frame = rel_motion_frame(qx, qy);
                proof {
                    lemma_rel_motion_frame_axis_sum(qx, qy);
                    lemma_rel_axis_sum_append(out@, frame@, REL_X);
                    lemma_rel_axis_sum_append(out@, frame@, REL_Y);
                }
                out.append(&mut frame);
                proof {
                    assert(r_total.out =~= out@);
                }
            }
        }
        out
    }

    /// The channel closed with no shutdown message: equivalent to one, the
    /// worker flushes any buffered displacement and tears the device down.
    pub fn finish(&mut self) -> (out: Vec<Emission>)
        requires
            !old(self).is_done(),
            old(self).inv(),
        ensures
            final(self).inv(),
            final(self).is_done(),
            out@ == spec_flush_frame(old(self).queued_x(), old(self).queued_y()) + seq![
                Emission::Teardown,
            ],
            final(self).total_absorbed() == old(self).total_absorbed(),
            final(self).total_emitted().x == old(self).total_emitted().x + spec_rel_axis_sum(
                out@,
                REL_X,
            ),
            final(self).total_emitted().y == old(self).total_emitted().y + spec_rel_axis_sum(
                out@,
                REL_Y,
            ),
    {
        let mut out = self.flush_queued();
        out.push(Emission::Teardown);
        self.done = true;
        proof {
            assert(out@.drop_last() =~= spec_flush_frame(
                old(self).queued_x(),
                old(self).queued_y(),
            ));
            assert(out@ =~= spec_flush_frame(old(self).queued_x(), old(self).queued_y()) + seq![
                Emission::Teardown,
            ]);
        }
        out
    }

    /// Emits the queued motion if any displacement is buffered, and zeroes
    /// the queue either way.
    fn flush_queued(&mut self) -> (out: Vec<Emission>)
        requires
            old(self).inv(),
        ensures
            final(self).inv(),
            final(self).is_done() == old(self).is_done(),
            final(self).queued_x() == 0,
            final(self).queued_y() == 0,
            out@ == spec_flush_frame(old(self).queued_x(), old(self).queued_y()),
            final(self).total_absorbed() == old(self).total_absorbed(),
            final(self).total_emitted().x == old(self).total_emitted().x + spec_rel_axis_sum(
                out@,
                REL_X,
            ),
            final(self).total_emitted().y == old(self).total_emitted().y + spec_rel_axis_sum(
                out@,
                REL_Y,
            ),
    {
        proof {
            reveal_with_fuel(spec_rel_axis_sum, 1);
        }
        if self.queued_dx != 0 || self.queued_dy != 0 {
            let qx = self.queued_dx;
            let qy = self.queued_dy;
            self.queued_dx = 0;
            self.queued_dy = 0;
            proof {
                self.emitted@ = Displacement {
                    x: self.emitted@.x + qx as int,
                    y: self.emitted@.y + qy as int,
                };
                lemma_rel_motion_frame_axis_sum(qx, qy);
            }
            rel_motion_frame(qx, qy)
        } else {
            Vec::new()
        }
    }

    /// Flushes queued motion, then emits one button frame.
    fn flush_and_button(&mut self, code: u16, value: i32) -> (out: Vec<Emission>)
        requires
            old(self).inv(),
        ensures
            final(self).inv(),
            final(self).is_done() == old(self).is_done(),
            final(self).queued_x() == 0,
            final(self).queued_y() == 0,
            out@ == spec_flush_frame(old(self).queued_x(), old(self).queued_y())
                + spec_emissions_of(spec_key_frame(code, value)),
            final(self).total_absorbed() == old(self).total_absorbed(),
            final(self).total_emitted().x == old(self).total_emitted().x + spec_rel_axis_sum(
                out@,
                REL_X,
            ),
            final(self).total_emitted().y == old(self).total_emitted().y + spec_rel_axis_sum(
                out@,
                REL_Y,
            ),
    {
        let mut out = self.flush_queued();
        let mut frame = key_frame(code, value);
        proof {
            lemma_key_frame_axis_sum(code, value, REL_X);
            lemma_key_frame_axis_sum(code, value, REL_Y);
            lemma_rel_axis_sum_append(out@, frame@, REL_X);
            lemma_rel_axis_sum_append(out@, frame@, REL_Y);
        }
        out.append(&mut frame);
        out
    }
}

/// Over a worker's whole life — once it has torn its device down — the
/// total emitted displacement equals the total absorbed displacement: no
/// motion is lost or invented by coalescing, however the passes fell.
pub proof fn lemma_worker_displacement_preserved(w: RelativeMouseWorker)
    requires
        w.inv(),
        w.is_done(),
    ensures
        w.total_emitted() == w.total_absorbed(),
{
}

} // verus!
