//! Device worker state machines for the keyboard and the absolute mouse.
//!
//! One worker owns one virtual device for its whole life. It turns each
//! action into its frame one-for-one, and on shutdown — an explicit message,
//! or the channel closing with no message — it performs the single teardown
//! of its device. The caller thread drives the worker with one step per
//! received message and performs the returned emissions on the descriptor.

use crate::frames::{
    key_frame, abs_motion_frame, spec_abs_motion_frame, spec_emissions_of, spec_key_frame,
    spec_teardown_count, lemma_teardown_count_append, lemma_records_have_no_teardown, Emission,
};
use vstd::prelude::*;

verus! {

/// An action valid for a keyboard device.
#[derive(Clone, Copy, PartialEq, Eq, Structural, Debug)]
pub enum KeyboardAction {
    /// Press the key with this code.
    Press(u16),
    /// Release the key with this code.
    Release(u16),
}

/// A message on a keyboard worker's action channel.
#[derive(Clone, Copy, PartialEq, Eq, Structural, Debug)]
pub enum KeyboardMsg {
    /// Perform one action.
    Action(KeyboardAction),
    /// Stop and tear the device down.
    Shutdown,
}

/// An action valid for an absolute-motion mouse device.
#[derive(Clone, Copy, PartialEq, Eq, Structural, Debug)]
pub enum AbsoluteMouseAction {
    /// Move to this absolute axis position.
    Move(i32, i32),
    /// Press the button with this code.
    Press(u16),
    /// Release the button with this code.
    Release(u16),
}

/// A message on an absolute-mouse worker's action channel.
#[derive(Clone, Copy, PartialEq, Eq, Structural, Debug)]
pub enum AbsoluteMouseMsg {
    /// Perform one action.
    Action(AbsoluteMouseAction),
    /// Stop and tear the device down.
    Shutdown,
}

/// The emissions of one keyboard action: its frame, one-for-one.
pub open spec fn spec_keyboard_action_emissions(a: KeyboardAction) -> Seq<Emission> {
    match a {
        KeyboardAction::Press(code) => spec_emissions_of(spec_key_frame(code, 1)),
        KeyboardAction::Release(code) => spec_emissions_of(spec_key_frame(code, 0)),
    }
}

/// The emissions of one absolute-mouse action: its frame, one-for-one.
pub open spec fn spec_absolute_action_emissions(a: AbsoluteMouseAction) -> Seq<Emission> {
    match a {
        AbsoluteMouseAction::Move(x, y) => spec_emissions_of(spec_abs_motion_frame(x, y)),
        AbsoluteMouseAction::Press(code) => spec_emissions_of(spec_key_frame(code, 1)),
        AbsoluteMouseAction::Release(code) => spec_emissions_of(spec_key_frame(code, 0)),
    }
}

/// Everything a keyboard worker emits over the message sequence `msgs`:
/// each action's frame in order, cut off at the first shutdown message,
/// and exactly one final teardown — also when the sequence ends with no
/// shutdown message, which stands for the channel closing.
pub open spec fn spec_keyboard_run(msgs: Seq<KeyboardMsg>) -> Seq<Emission>
    decreases msgs.len(),
{
    if msgs.len() == 0 {
        seq![Emission::Teardown]
    } else {
        match msgs[0] {
            KeyboardMsg::Action(a) => spec_keyboard_action_emissions(a) + spec_keyboard_run(
                msgs.skip(1),
            ),
            KeyboardMsg::Shutdown => seq![Emission::Teardown],
        }
    }
}

/// Everything an absolute-mouse worker emits over `msgs`; same shape as
/// the keyboard run.
pub open spec fn spec_absolute_run(msgs: Seq<AbsoluteMouseMsg>) -> Seq<Emission>
    decreases msgs.len(),
{
    if msgs.len() == 0 {
        seq![Emission::Teardown]
    } else {
        match msgs[0] {
            AbsoluteMouseMsg::Action(a) => spec_absolute_action_emissions(a) + spec_absolute_run(
                msgs.skip(1),
            ),
            AbsoluteMouseMsg::Shutdown => seq![Emission::Teardown],
        }
    }
}

/// A keyboard worker's life contains exactly one teardown, whatever the
/// messages were and wherever the shutdown fell among them.
pub proof fn lemma_keyboard_run_teardown_once(msgs: Seq<KeyboardMsg>)
    ensures
        spec_teardown_count(spec_keyboard_run(msgs)) == 1,
    decreases msgs.len(),
{
    reveal_with_fuel(spec_teardown_count, 2);
    if msgs.len() > 0 {
        match msgs[0] {
            KeyboardMsg::Action(a) => {
                lemma_keyboard_run_teardown_once(msgs.skip(1));
                match a {
                    KeyboardAction::Press(code) => lemma_records_have_no_teardown(
                        spec_key_frame(code, 1),
                    ),
                    KeyboardAction::Release(code) => lemma_records_have_no_teardown(
                        spec_key_frame(code, 0),
                    ),
                }
                lemma_teardown_count_append(
                    spec_keyboard_action_emissions(a),
                    spec_keyboard_run(msgs.skip(1)),
                );
            },
            KeyboardMsg::Shutdown => {},
        }
    }
}

/// An absolute-mouse worker's life contains exactly one teardown.
pub proof fn lemma_absolute_run_teardown_once(msgs: Seq<AbsoluteMouseMsg>)
    ensures
        spec_teardown_count(spec_absolute_run(msgs)) == 1,
    decreases msgs.len(),
{
    reveal_with_fuel(spec_teardown_count, 2);
    if msgs.len() > 0 {
        match msgs[0] {
            AbsoluteMouseMsg::Action(a) => {
                lemma_absolute_run_teardown_once(msgs.skip(1));
                match a {
                    AbsoluteMouseAction::Move(x, y) => lemma_records_have_no_teardown(
                        spec_abs_motion_frame(x, y),
                    ),
                    AbsoluteMouseAction::Press(code) => lemma_records_have_no_teardown(
                        spec_key_frame(code, 1),
                    ),
                    AbsoluteMouseAction::Release(code) => lemma_records_have_no_teardown(
                        spec_key_frame(code, 0),
                    ),
                }
                lemma_teardown_count_append(
                    spec_absolute_action_emissions(a),
                    spec_absolute_run(msgs.skip(1)),
                );
            },
            AbsoluteMouseMsg::Shutdown => {},
        }
    }
}

/// The worker of one virtual keyboard device.
pub struct KeyboardWorker {
    done: bool,
}

impl KeyboardWorker {
    /// Whether the worker has torn its device down.
    pub closed spec fn is_done(self) -> bool {
        self.done
    }

    /// A worker that has just taken ownership of a live device.
    pub fn new() -> (w: KeyboardWorker)
        ensures
            !w.is_done(),
    {
        KeyboardWorker { done: false }
    }

    /// Processes one received message: an action becomes its frame, a
    /// shutdown becomes the teardown and ends the worker.
    pub fn step(&mut self, msg: &KeyboardMsg) -> (out: Vec<Emission>)
        requires
            !old(self).is_done(),
        ensures
            final(self).is_done() == (*msg is Shutdown),
            out@ == match *msg {
                KeyboardMsg::Action(a) => spec_keyboard_action_emissions(a),
                KeyboardMsg::Shutdown => seq![Emission::Teardown],
            },
    {
        match msg {
            KeyboardMsg::Action(KeyboardAction::Press(code)) => key_frame(*code, 1),
            KeyboardMsg::Action(KeyboardAction::Release(code)) => key_frame(*code, 0),
            KeyboardMsg::Shutdown => {
                self.done = true;
                let mut out: Vec<Emission> = Vec::new();
                out.push(Emission::Teardown);
                proof {
                    assert(out@ =~= seq![Emission::Teardown]);
                }
                out
            },
        }
    }

    /// The channel closed with no shutdown message: equivalent to one, the
    /// worker tears the device down.
    pub fn finish(&mut self) -> (out: Vec<Emission>)
        requires
            !old(self).is_done(),
        ensures
            final(self).is_done(),
            out@ == seq![Emission::Teardown],
    {
        self.done = true;
        let mut out: Vec<Emission> = Vec::new();
        out.push(Emission::Teardown);
        proof {
            assert(out@ =~= seq![Emission::Teardown]);
        }
        out
    }

    /// The whole life of a keyboard worker over a message sequence, frames
    /// one-for-one and a single teardown at the end.
    pub fn run(msgs: &Vec<KeyboardMsg>) -> (out: Vec<Emission>)
        ensures
            out@ == spec_keyboard_run(msgs@),
            spec_teardown_count(out@) == 1,
    {
        let mut w = KeyboardWorker::new();
        let mut out: Vec<Emission> = Vec::new();
        let mut i: usize = 0;
        proof {
            assert(msgs@.skip(0) =~= msgs@);
            assert(out@ + spec_keyboard_run(msgs@) =~= spec_keyboard_run(msgs@));
        }
        while i < msgs.len() && !w.done
            invariant
                i <= msgs@.len(),
                !w.done,
                spec_keyboard_run(msgs@) == out@ + spec_keyboard_run(msgs@.skip(i as int)),
            decreases msgs@.len() - i,
        {
            let mut step_out = w.step(&msgs[i]);
            proof {
                assert(msgs@.skip(i as int)[0] == msgs@[i as int]);
                assert(msgs@.skip(i as int).skip(1) =~= msgs@.skip(i as int + 1));
            }
            out.append(&mut step_out);
            i = i + 1;
            if w.done {
                proof {
                    assert(spec_keyboard_run(msgs@) =~= out@);
                    lemma_keyboard_run_teardown_once(msgs@);
                }
                return out;
            }
        }
        proof {
            assert(msgs@.skip(i as int) =~= Seq::<KeyboardMsg>::empty());
        }
        let mut tail = w.finish();
        out.append(&mut tail);
        proof {
            assert(spec_keyboard_run(msgs@) =~= out@);
            lemma_keyboard_run_teardown_once(msgs@);
        }
        out
    }
}

/// The worker of one virtual absolute-motion mouse device.
pub struct AbsoluteMouseWorker {
    done: bool,
}

impl AbsoluteMouseWorker {
    /// Whether the worker has torn its device down.
    pub closed spec fn is_done(self) -> bool {
        self.done
    }

    /// A worker that has just taken ownership of a live device.
    pub fn new() -> (w: AbsoluteMouseWorker)
        ensures
            !w.is_done(),
    {
        AbsoluteMouseWorker { done: false }
    }

    /// Processes one received message, one frame per action.
    pub fn step(&mut self, msg: &AbsoluteMouseMsg) -> (out: Vec<Emission>)
        requires
            !old(self).is_done(),
        ensures
            final(self).is_done() == (*msg is Shutdown),
            out@ == match *msg {
                AbsoluteMouseMsg::Action(a) => spec_absolute_action_emissions(a),
                AbsoluteMouseMsg::Shutdown => seq![Emission::Teardown],
            },
    {
        match msg {
            AbsoluteMouseMsg::Action(AbsoluteMouseAction::Move(x, y)) => abs_motion_frame(*x, *y),
            AbsoluteMouseMsg::Action(AbsoluteMouseAction::Press(code)) => key_frame(*code, 1),
            AbsoluteMouseMsg::Action(AbsoluteMouseAction::Release(code)) => key_frame(*code, 0),
            AbsoluteMouseMsg::Shutdown => {
                self.done = true;
                let mut out: Vec<Emission> = Vec::new();
                out.push(Emission::Teardown);
                proof {
                    assert(out@ =~= seq![Emission::Teardown]);
                }
                out
            },
        }
    }

    /// The channel closed with no shutdown message: tear the device down.
    pub fn finish(&mut self) -> (out: Vec<Emission>)
        requires
            !old(self).is_done(),
        ensures
            final(self).is_done(),
            out@ == seq![Emission::Teardown],
    {
        self.done = true;
        let mut out: Vec<Emission> = Vec::new();
        out.push(Emission::Teardown);
        proof {
            assert(out@ =~= seq![Emission::Teardown]);
        }
        out
    }

    /// The whole life of an absolute-mouse worker over a message sequence.
    pub fn run(msgs: &Vec<AbsoluteMouseMsg>) -> (out: Vec<Emission>)
        ensures
            out@ == spec_absolute_run(msgs@),
            spec_teardown_count(out@) == 1,
    {
        let mut w = AbsoluteMouseWorker::new();
        let mut out: Vec<Emission> = Vec::new();
        let mut i: usize = 0;
        proof {
            assert(msgs@.skip(0) =~= msgs@);
            assert(out@ + spec_absolute_run(msgs@) =~= spec_absolute_run(msgs@));
        }
        while i < msgs.len() && !w.done
            invariant
                i <= msgs@.len(),
                !w.done,
                spec_absolute_run(msgs@) == out@ + spec_absolute_run(msgs@.skip(i as int)),
            decreases msgs@.len() - i,
        {
            let mut step_out = w.step(&msgs[i]);
            proof {
                assert(msgs@.skip(i as int)[0] == msgs@[i as int]);
                assert(msgs@.skip(i as int).skip(1) =~= msgs@.skip(i as int + 1));
            }
            out.append(&mut step_out);
            i = i + 1;
            if w.done {
                proof {
                    assert(spec_absolute_run(msgs@) =~= out@);
                    lemma_absolute_run_teardown_once(msgs@);
                }
                return out;
            }
        }
        proof {
            assert(msgs@.skip(i as int) =~= Seq::<AbsoluteMouseMsg>::empty());
        }
        let mut tail = w.finish();
        out.append(&mut tail);
        proof {
            assert(spec_absolute_run(msgs@) =~= out@);
            lemma_absolute_run_teardown_once(msgs@);
        }
        out
    }
}

} // verus!
