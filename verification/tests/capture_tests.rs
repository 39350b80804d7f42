use kinput::capture::{
    capture_step, capture_wake, close_all, normalize_event, poll_error_decision, Device,
    DeviceInput, EventBatch, PollErrorAction, ReadOutcome,
};
use kinput::records::{EV_KEY, EV_REL, EV_SYN};
use kinput::{InputEvent, Key};

fn device(fd: i32) -> Device {
    let mut d = Device::default();
    d.fd = fd;
    d
}

fn key_record(code: u16, value: i32) -> InputEvent {
    InputEvent { tv_sec: 0, tv_usec: 0, type_: EV_KEY, code, value }
}

fn data(events: Vec<InputEvent>) -> DeviceInput {
    DeviceInput::Read(ReadOutcome::Data(EventBatch { events }))
}

#[test]
fn eof_removes_exactly_that_device() {
    // Three actively polled devices; the middle one reports end of file.
    let mut devices = vec![device(10), device(11), device(12)];
    let inputs = vec![
        data(vec![key_record(30, 1)]),
        DeviceInput::Read(ReadOutcome::Eof),
        data(vec![key_record(16, 1)]),
    ];
    let r = capture_step(&mut devices, &inputs);
    // Exactly the dead device is gone; the loop continues with the rest.
    assert_eq!(devices.len(), 2);
    assert_eq!(devices[0].fd, 10);
    assert_eq!(devices[1].fd, 12);
    // Its descriptor is closed exactly once.
    assert_eq!(r.closed_fds, vec![11]);
    // The remaining two still deliver their normalized events.
    assert_eq!(r.forwarded, vec![Key::A, Key::Q]);
    assert!(!r.exit);
}

#[test]
fn read_failure_also_removes_the_device() {
    let mut devices = vec![device(5), device(6)];
    let inputs = vec![DeviceInput::Read(ReadOutcome::Failed), DeviceInput::Idle];
    let r = capture_step(&mut devices, &inputs);
    assert_eq!(devices.len(), 1);
    assert_eq!(devices[0].fd, 6);
    assert_eq!(r.closed_fds, vec![5]);
    assert!(r.forwarded.is_empty());
}

#[test]
fn would_block_keeps_the_device_and_forwards_nothing() {
    let mut devices = vec![device(7)];
    let inputs = vec![data(Vec::new())];
    let r = capture_step(&mut devices, &inputs);
    assert_eq!(devices.len(), 1);
    assert!(r.closed_fds.is_empty());
    assert!(r.forwarded.is_empty());
}

#[test]
fn releases_and_non_key_records_are_discarded() {
    let mut devices = vec![device(3)];
    let events = vec![
        key_record(30, 0),                                                     // release
        InputEvent { tv_sec: 0, tv_usec: 0, type_: EV_REL, code: 0, value: 5 }, // motion
        InputEvent { tv_sec: 0, tv_usec: 0, type_: EV_SYN, code: 0, value: 0 }, // sync
        key_record(30, 2),                                                     // auto-repeat
        key_record(44, 1),                                                     // press
        key_record(999, 1),                                                    // unknown code
    ];
    let r = capture_step(&mut devices, &vec![data(events)]);
    assert_eq!(r.forwarded, vec![Key::A, Key::Z]);
}

#[test]
fn shutdown_closes_every_device_and_delivers_nothing() {
    // The shutdown flag was observed clear: the wake exits, closes every
    // remaining descriptor, and forwards no further events.
    let mut devices = vec![device(20), device(21), device(22)];
    let inputs = vec![data(vec![key_record(30, 1)]), DeviceInput::Idle, DeviceInput::Idle];
    let r = capture_wake(&mut devices, false, &inputs);
    assert!(r.exit);
    assert!(r.forwarded.is_empty());
    assert_eq!(r.closed_fds, vec![20, 21, 22]);
    assert!(devices.is_empty());
}

#[test]
fn running_wake_behaves_like_a_step() {
    let mut devices = vec![device(20)];
    let inputs = vec![data(vec![key_record(2, 1)])];
    let r = capture_wake(&mut devices, true, &inputs);
    assert!(!r.exit);
    assert_eq!(r.forwarded, vec![Key::Num1]);
    assert_eq!(devices.len(), 1);
}

#[test]
fn close_all_skips_already_closed_entries() {
    let mut devices = vec![device(8), device(-1), device(9)];
    let closed = close_all(&mut devices);
    assert_eq!(closed, vec![8, 9]);
    assert!(devices.is_empty());
}

#[test]
fn mark_closed_yields_the_descriptor_exactly_once() {
    let mut d = device(42);
    assert_eq!(d.mark_closed(), Some(42));
    assert_eq!(d.fd, -1);
    assert_eq!(d.mark_closed(), None);
}

#[test]
fn normalize_keeps_presses_and_repeats_only() {
    assert_eq!(normalize_event(&key_record(30, 1)), Some(Key::A));
    assert_eq!(normalize_event(&key_record(30, 2)), Some(Key::A));
    assert_eq!(normalize_event(&key_record(30, 0)), None);
    assert_eq!(
        normalize_event(&InputEvent { tv_sec: 0, tv_usec: 0, type_: EV_REL, code: 30, value: 1 }),
        None
    );
    assert_eq!(normalize_event(&key_record(999, 1)), None);
}

#[test]
fn interrupted_wait_retries_unless_shutdown() {
    assert_eq!(poll_error_decision(true, true), PollErrorAction::Retry);
    assert_eq!(poll_error_decision(true, false), PollErrorAction::Exit);
    assert_eq!(poll_error_decision(false, true), PollErrorAction::Fail);
    assert_eq!(poll_error_decision(false, false), PollErrorAction::Fail);
}

#[test]
fn event_batch_slice_matches_contents() {
    let b = EventBatch { events: vec![key_record(1, 1), key_record(2, 0)] };
    assert_eq!(b.as_slice().len(), 2);
    assert_eq!(b.as_slice()[1], key_record(2, 0));
    let d = EventBatch::default();
    assert!(d.as_slice().is_empty());
}
