//! The capture engine's decision core: the active device set, and what one
//! wake of the poll loop does with each device's readiness and read result.
//!
//! The loop multiplexes over the active set; a readable device gets one
//! non-blocking batched read, whose key records with non-zero value are
//! normalized and forwarded in FIFO order. A device whose read reports end
//! of file or fails — or that the wait flagged as erroneous and whose read
//! confirmed it — is closed exactly once and removed from the set; the
//! loop continues with the remaining devices. When the shutdown flag is
//! observed clear, the loop closes every remaining device and exits. The
//! waiting, reading and closing themselves are operating-system calls made
//! by the thread that drives these decisions.

use crate::keys::{spec_key_from_code, Key};
use crate::records::{InputEvent, EV_KEY};
use vstd::prelude::*;

verus! {

/// Bytes of a capture device's fixed path and name buffers.
pub const NAME_BYTES: usize = 256;

/// How many records one batched read can return at most.
pub const EVENT_BATCH_CAPACITY: usize = 64;

/// One physical input device in the active poll set.
pub struct Device {
    /// The open descriptor, or `-1` once closed.
    pub fd: i32,
    /// The device node path, null-terminated in a fixed buffer.
    pub path: Vec<u8>,
    /// The declared device name, null-terminated in a fixed buffer.
    pub name: Vec<u8>,
    /// Relative horizontal motion not yet forwarded.
    pub pending_dx: i32,
    /// Relative vertical motion not yet forwarded.
    pub pending_dy: i32,
    /// Wheel motion not yet forwarded.
    pub pending_wheel: i32,
}

impl Default for Device {
    /// A closed entry with empty, zeroed buffers.
    fn default() -> (d: Device)
        ensures
            d.fd == -1,
            d.path@ == Seq::<u8>::new(NAME_BYTES as nat, |i: int| 0u8),
            d.name@ == Seq::<u8>::new(NAME_BYTES as nat, |i: int| 0u8),
            d.pending_dx == 0,
            d.pending_dy == 0,
            d.pending_wheel == 0,
    {
        let mut path: Vec<u8> = Vec::new();
        let mut name: Vec<u8> = Vec::new();
        let mut i: usize = 0;
        while i < NAME_BYTES
            invariant
                i <= NAME_BYTES,
                path@ == Seq::<u8>::new(i as nat, |j: int| 0u8),
                name@ == Seq::<u8>::new(i as nat, |j: int| 0u8),
            decreases NAME_BYTES - i,
        {
            path.push(0);
            name.push(0);
            i = i + 1;
            proof {
                assert(path@ =~= Seq::<u8>::new(i as nat, |j: int| 0u8));
                assert(name@ =~= Seq::<u8>::new(i as nat, |j: int| 0u8));
            }
        }
        Device { fd: -1, path, name, pending_dx: 0, pending_dy: 0, pending_wheel: 0 }
    }
}

impl Device {
    /// Hands the descriptor out for closing, exactly once: the first call
    /// on an open entry yields the descriptor and marks the entry closed;
    /// any later call yields nothing. The active set therefore never holds
    /// a descriptor this process has closed.
    pub fn mark_closed(&mut self) -> (r: Option<i32>)
        ensures
            old(self).fd >= 0 ==> r == Some(old(self).fd) && *final(self) == (Device {
                fd: -1i32,
                ..*old(self)
            }),
            old(self).fd < 0 ==> r is None && *final(self) == *old(self),
    {
        if self.fd < 0 {
            return None;
        }
        let fd = self.fd;
        self.fd = -1;
        Some(fd)
    }
}

/// The records one batched read returned.
pub struct EventBatch {
    /// The raw records, in read order.
    pub events: Vec<InputEvent>,
}

impl Default for EventBatch {
    /// An empty batch.
    fn default() -> (b: EventBatch)
        ensures
            b.events@ == Seq::<InputEvent>::empty(),
    {
        EventBatch { events: Vec::new() }
    }
}

impl EventBatch {
    /// The records as a slice.
    pub fn as_slice(&self) -> (r: &[InputEvent])
        ensures
            r@ == self.events@,
    {
        self.events.as_slice()
    }
}

/// The key a raw record is forwarded as: only a key-type record with
/// non-zero value — a press or an auto-repeat — whose code the translation
/// table knows becomes a key; releases and other record types are
/// discarded.
pub open spec fn spec_normalize_event(ev: InputEvent) -> Option<Key> {
    if ev.type_ == EV_KEY && ev.value != 0 {
        spec_key_from_code(ev.code)
    } else {
        None
    }
}

/// Normalizes one raw record.
pub fn normalize_event(ev: &InputEvent) -> (r: Option<Key>)
    ensures
        r == spec_normalize_event(*ev),
{
    if ev.type_ != EV_KEY {
        return None;
    }
    if ev.value != 0 {
        return Key::from_code(ev.code);
    }
    None
}

/// What one non-blocking read on a flagged device came to.
pub enum ReadOutcome {
    /// Records were read; a would-block read is an empty batch, not an
    /// error.
    Data(EventBatch),
    /// The device reported end of file: it is gone.
    Eof,
    /// The read failed: the device is dropped.
    Failed,
}

/// One device's share of a wake: either the wait did not flag it, or it
/// was flagged — readable or erroneous — and one read was performed.
pub enum DeviceInput {
    /// Not flagged; the device is left alone.
    Idle,
    /// Flagged; the outcome of the one read that followed.
    Read(ReadOutcome),
}

impl DeviceInput {
    /// Whether this input removes its device from the active set.
    pub open spec fn is_removal(self) -> bool {
        self matches DeviceInput::Read(o) && !(o is Data)
    }
}

/// The keys forwarded from one batch, in record order.
pub open spec fn spec_batch_keys(events: Seq<InputEvent>) -> Seq<Key>
    decreases events.len(),
{
    if events.len() == 0 {
        Seq::<Key>::empty()
    } else {
        (match spec_normalize_event(events[0]) {
            Some(k) => seq![k],
            None => Seq::<Key>::empty(),
        }) + spec_batch_keys(events.skip(1))
    }
}

/// What one wake does to the active set, device by device in index order.
pub struct StepSpec {
    /// The devices still in the active set, in their former order.
    pub kept: Seq<Device>,
    /// The normalized keys forwarded, in poll-ready order.
    pub keys: Seq<Key>,
    /// The descriptors closed, each taken from a removed device.
    pub closed: Seq<i32>,
}

/// One wake over the active set: a device that was idle or delivered data
/// stays, its batch's keys are forwarded in order; a device whose read
/// reported end of file or failure is removed and its descriptor closed.
pub open spec fn spec_capture_step(devs: Seq<Device>, inputs: Seq<DeviceInput>) -> StepSpec
    recommends
        devs.len() == inputs.len(),
    decreases devs.len(),
{
    if devs.len() == 0 {
        StepSpec { kept: Seq::empty(), keys: Seq::empty(), closed: Seq::empty() }
    } else {
        let rest = spec_capture_step(devs.skip(1), inputs.skip(1));
        match inputs[0] {
            DeviceInput::Idle => StepSpec { kept: seq![devs[0]] + rest.kept, ..rest },
            DeviceInput::Read(ReadOutcome::Data(batch)) => StepSpec {
                kept: seq![devs[0]] + rest.kept,
                keys: spec_batch_keys(batch.events@) + rest.keys,
                closed: rest.closed,
            },
            DeviceInput::Read(ReadOutcome::Eof) => StepSpec {
                kept: rest.kept,
                keys: rest.keys,
                closed: seq![devs[0].fd] + rest.closed,
            },
            DeviceInput::Read(ReadOutcome::Failed) => StepSpec {
                kept: rest.kept,
                keys: rest.keys,
                closed: seq![devs[0].fd] + rest.closed,
            },
        }
    }
}

/// What the driving thread does after one wake.
pub struct StepResult {
    /// The keys to forward on the consumer channel, in order.
    pub forwarded: Vec<Key>,
    /// The descriptors to close, each exactly once.
    pub closed_fds: Vec<i32>,
    /// Whether the loop is over and the thread should return.
    pub exit: bool,
}

/// Normalizes and collects the keys of one batch.
fn batch_keys(events: &Vec<InputEvent>, keys: &mut Vec<Key>)
    ensures
        final(keys)@ == old(keys)@ + spec_batch_keys(events@),
{
    let mut i: usize = 0;
    proof {
        assert(events@.skip(0) =~= events@);
    }
    while i < events.len()
        invariant
            i <= events@.len(),
            old(keys)@ + spec_batch_keys(events@) == keys@ + spec_batch_keys(
                events@.skip(i as int),
            ),
        decreases events@.len() - i,
    {
        proof {
            assert(events@.skip(i as int)[0] == events@[i as int]);
            assert(events@.skip(i as int).skip(1) =~= events@.skip(i as int + 1));
        }
        match normalize_event(&events[i]) {
            Some(k) => {
                keys.push(k);
                proof {
                    assert(old(keys)@ + spec_batch_keys(events@) =~= keys@ + spec_batch_keys(
                        events@.skip(i as int + 1),
                    ));
                }
            },
            None => {
                proof {
                    assert(old(keys)@ + spec_batch_keys(events@) =~= keys@ + spec_batch_keys(
                        events@.skip(i as int + 1),
                    ));
                }
            },
        }
        i = i + 1;
    }
    proof {
        assert(events@.skip(i as int) =~= Seq::<InputEvent>::empty());
        assert(final(keys)@ =~= old(keys)@ + spec_batch_keys(events@));
    }
}

/// One wake of the capture loop over a running session: updates the
/// active set, and returns the keys to forward and the descriptors to
/// close. `inputs[i]` is device `i`'s readiness and read outcome.
pub fn capture_step(devices: &mut Vec<Device>, inputs: &Vec<DeviceInput>) -> (r: StepResult)
    requires
        inputs@.len() == old(devices)@.len(),
    ensures
        ({
            let s = spec_capture_step(old(devices)@, inputs@);
            &&& final(devices)@ == s.kept
            &&& r.forwarded@ == s.keys
            &&& r.closed_fds@ == s.closed
            &&& !r.exit
        }),
{
    let ghost devs0 = devices@;
    let ghost s_total = spec_capture_step(devs0, inputs@);
    let mut kept: Vec<Device> = Vec::new();
    let mut forwarded: Vec<Key> = Vec::new();
    let mut closed_fds: Vec<i32> = Vec::new();
    let mut i: usize = 0;
    proof {
        assert(devs0.skip(0) =~= devs0);
        assert(inputs@.skip(0) =~= inputs@);
    }
    while i < inputs.len()
        invariant
            i <= inputs@.len(),
            inputs@.len() == devs0.len(),
            devices@ == devs0.skip(i as int),
            s_total == spec_capture_step(devs0, inputs@),
            ({
                let s_rem = spec_capture_step(devs0.skip(i as int), inputs@.skip(i as int));
                &&& s_total.kept == kept@ + s_rem.kept
                &&& s_total.keys == forwarded@ + s_rem.keys
                &&& s_total.closed == closed_fds@ + s_rem.closed
            }),
        decreases inputs@.len() - i,
    {
        proof {
            assert(devs0.skip(i as int)[0] == devs0[i as int]);
            assert(devs0.skip(i as int).skip(1) =~= devs0.skip(i as int + 1));
            assert(inputs@.skip(i as int)[0] == inputs@[i as int]);
            assert(inputs@.skip(i as int).skip(1) =~= inputs@.skip(i as int + 1));
        }
        let mut dev = devices.remove(0);
        let ghost s_rem = spec_capture_step(devs0.skip(i as int), inputs@.skip(i as int));
        let ghost s_next = spec_capture_step(devs0.skip(i as int + 1), inputs@.skip(i as int + 1));
        match &inputs[i] {
            DeviceInput::Idle => {
                kept.push(dev);
                proof {
                    assert(s_total.kept =~= kept@ + s_next.kept);
                }
            },
            DeviceInput::Read(ReadOutcome::Data(batch)) => {
                batch_keys(&batch.events, &mut forwarded);
                kept.push(dev);
                proof {
                    assert(s_total.kept =~= kept@ + s_next.kept);
                    assert(s_total.keys =~= forwarded@ + s_next.keys);
                }
            },
            DeviceInput::Read(ReadOutcome::Eof) => {
                closed_fds.push(dev.fd);
                proof {
                    assert(s_total.closed =~= closed_fds@ + s_next.closed);
                }
            },
            DeviceInput::Read(ReadOutcome::Failed) => {
                closed_fds.push(dev.fd);
                proof {
                    assert(s_total.closed =~= closed_fds@ + s_next.closed);
                }
            },
        }
        i = i + 1;
    }
    proof {
        assert(devs0.skip(i as int) =~= Seq::<Device>::empty());
        assert(s_total.kept =~= kept@);
        assert(s_total.keys =~= forwarded@);
        assert(s_total.closed =~= closed_fds@);
    }
    *devices = kept;
    StepResult { forwarded, closed_fds, exit: false }
}

/// The open descriptors of the active set, in order: what a full close
/// must close, each exactly once.
pub open spec fn spec_open_fds(devs: Seq<Device>) -> Seq<i32>
    decreases devs.len(),
{
    if devs.len() == 0 {
        Seq::<i32>::empty()
    } else {
        (if devs[0].fd >= 0 { seq![devs[0].fd] } else { Seq::<i32>::empty() }) + spec_open_fds(
            devs.skip(1),
        )
    }
}

/// Empties the active set, handing every still-open descriptor out for
/// closing exactly once.
pub fn close_all(devices: &mut Vec<Device>) -> (closed: Vec<i32>)
    ensures
        final(devices)@.len() == 0,
        closed@ == spec_open_fds(old(devices)@),
{
    let ghost devs0 = devices@;
    let n = devices.len();
    let mut closed: Vec<i32> = Vec::new();
    let mut i: usize = 0;
    proof {
        assert(devs0.skip(0) =~= devs0);
    }
    while i < n
        invariant
            i <= n,
            n == devs0.len(),
            devices@ == devs0.skip(i as int),
            spec_open_fds(devs0) == closed@ + spec_open_fds(devs0.skip(i as int)),
        decreases n - i,
    {
        proof {
            assert(devs0.skip(i as int)[0] == devs0[i as int]);
            assert(devs0.skip(i as int).skip(1) =~= devs0.skip(i as int + 1));
        }
        let mut dev = devices.remove(0);
        match dev.mark_closed() {
            Some(fd) => closed.push(fd),
            None => {},
        }
        i = i + 1;
        proof {
            assert(spec_open_fds(devs0) =~= closed@ + spec_open_fds(devs0.skip(i as int)));
        }
    }
    proof {
        assert(devs0.skip(i as int) =~= Seq::<Device>::empty());
        assert(closed@ =~= spec_open_fds(devs0));
    }
    closed
}

/// One full wake of the capture loop, shutdown check included: with the
/// shutdown flag clear the loop forwards nothing more, closes every
/// remaining device and exits; while it is set, the wake processes the
/// devices' readiness as [`capture_step`] says.
pub fn capture_wake(devices: &mut Vec<Device>, running: bool, inputs: &Vec<DeviceInput>) -> (r:
    StepResult)
    requires
        inputs@.len() == old(devices)@.len(),
    ensures
        !running ==> {
            &&& r.exit
            &&& final(devices)@.len() == 0
            &&& r.forwarded@.len() == 0
            &&& r.closed_fds@ == spec_open_fds(old(devices)@)
        },
        running ==> ({
            let s = spec_capture_step(old(devices)@, inputs@);
            &&& !r.exit
            &&& final(devices)@ == s.kept
            &&& r.forwarded@ == s.keys
            &&& r.closed_fds@ == s.closed
        }),
{
    if !running {
        let closed_fds = close_all(devices);
        StepResult { forwarded: Vec::new(), closed_fds, exit: true }
    } else {
        capture_step(devices, inputs)
    }
}

/// What the loop does when the multiplexed wait itself returns an error.
#[derive(Clone, Copy, PartialEq, Eq, Structural, Debug)]
pub enum PollErrorAction {
    /// A signal interrupted the wait and shutdown was not requested: wait
    /// again.
    Retry,
    /// A signal interrupted the wait and shutdown was requested: leave the
    /// loop and close the devices.
    Exit,
    /// The wait failed for a real reason: the loop fails.
    Fail,
}

/// Decides what a failed multiplexed wait means: an interruption is
/// retried unless shutdown has since been requested; any other error is a
/// failure of the loop.
pub fn poll_error_decision(interrupted: bool, running: bool) -> (r: PollErrorAction)
    ensures
        r == (if interrupted {
            if running {
                PollErrorAction::Retry
            } else {
                PollErrorAction::Exit
            }
        } else {
            PollErrorAction::Fail
        }),
{
    if interrupted {
        if running {
            PollErrorAction::Retry
        } else {
            PollErrorAction::Exit
        }
    } else {
        PollErrorAction::Fail
    }
}

/// Hot removal is surgical: when exactly one device's read reports end of
/// file or failure, the wake removes exactly that device — every other
/// device stays, in order — and closes exactly that descriptor, once.
pub proof fn lemma_one_removal_is_surgical(devs: Seq<Device>, inputs: Seq<DeviceInput>, k: int)
    requires
        devs.len() == inputs.len(),
        0 <= k < inputs.len(),
        inputs[k].is_removal(),
        forall|j: int| 0 <= j < inputs.len() && j != k ==> !(#[trigger] inputs[j]).is_removal(),
    ensures
        spec_capture_step(devs, inputs).kept =~= devs.remove(k),
        spec_capture_step(devs, inputs).closed =~= seq![devs[k].fd],
    decreases devs.len(),
{
    let s = spec_capture_step(devs, inputs);
    let rest = spec_capture_step(devs.skip(1), inputs.skip(1));
    if k == 0 {
        lemma_no_removal_keeps_all(devs.skip(1), inputs.skip(1));
        assert(devs.remove(0) =~= devs.skip(1));
    } else {
        assert(forall|j: int|
            0 <= j < inputs.skip(1).len() && j != k - 1 ==> !(#[trigger] inputs.skip(1)[j]).is_removal());
        lemma_one_removal_is_surgical(devs.skip(1), inputs.skip(1), k - 1);
        assert(devs.skip(1).remove(k - 1) =~= devs.remove(k).skip(1));
        assert(!inputs[0].is_removal());
        match inputs[0] {
            DeviceInput::Idle => {
                assert(s.kept =~= seq![devs[0]] + rest.kept);
                assert(devs.remove(k) =~= seq![devs[0]] + devs.remove(k).skip(1));
            },
            DeviceInput::Read(ReadOutcome::Data(_)) => {
                assert(s.kept =~= seq![devs[0]] + rest.kept);
                assert(devs.remove(k) =~= seq![devs[0]] + devs.remove(k).skip(1));
            },
            DeviceInput::Read(ReadOutcome::Eof) => {},
            DeviceInput::Read(ReadOutcome::Failed) => {},
        }
    }
}

/// A wake with no removal keeps the whole set, in order, and closes
/// nothing.
pub proof fn lemma_no_removal_keeps_all(devs: Seq<Device>, inputs: Seq<DeviceInput>)
    requires
        devs.len() == inputs.len(),
        forall|j: int| 0 <= j < inputs.len() ==> !(#[trigger] inputs[j]).is_removal(),
    ensures
        spec_capture_step(devs, inputs).kept =~= devs,
        spec_capture_step(devs, inputs).closed =~= Seq::<i32>::empty(),
    decreases devs.len(),
{
    if devs.len() > 0 {
        lemma_no_removal_keeps_all(devs.skip(1), inputs.skip(1));
        assert(devs =~= seq![devs[0]] + devs.skip(1));
    }
}

} // verus!
