use kinput::frames::Emission;
use kinput::records::{EV_ABS, EV_KEY, EV_SYN, SYN_REPORT};
use kinput::workers::{
    AbsoluteMouseAction, AbsoluteMouseMsg, AbsoluteMouseWorker, KeyboardAction, KeyboardMsg,
    KeyboardWorker,
};
use kinput::InputEvent;

fn record(type_: u16, code: u16, value: i32) -> Emission {
    Emission::Record(InputEvent { tv_sec: 0, tv_usec: 0, type_, code, value })
}

fn sync() -> Emission {
    record(EV_SYN, SYN_REPORT, 0)
}

fn teardown_count(out: &[Emission]) -> usize {
    out.iter().filter(|e| matches!(e, Emission::Teardown)).count()
}

#[test]
fn keyboard_press_release_frames() {
    let msgs = vec![
        KeyboardMsg::Action(KeyboardAction::Press(30)),
        KeyboardMsg::Action(KeyboardAction::Release(30)),
        KeyboardMsg::Shutdown,
    ];
    let out = KeyboardWorker::run(&msgs);
    assert_eq!(
        out,
        vec![
            record(EV_KEY, 30, 1),
            sync(),
            record(EV_KEY, 30, 0),
            sync(),
            Emission::Teardown,
        ]
    );
}

#[test]
fn keyboard_teardown_exactly_once_on_explicit_shutdown() {
    let msgs = vec![
        KeyboardMsg::Action(KeyboardAction::Press(5)),
        KeyboardMsg::Shutdown,
        KeyboardMsg::Action(KeyboardAction::Press(6)),
        KeyboardMsg::Shutdown,
    ];
    let out = KeyboardWorker::run(&msgs);
    assert_eq!(teardown_count(&out), 1);
    // Nothing after the first shutdown is processed.
    assert_eq!(out.len(), 3);
    assert_eq!(out[2], Emission::Teardown);
}

#[test]
fn keyboard_teardown_exactly_once_on_channel_close() {
    // No shutdown message: the channel closing stands for one.
    let msgs = vec![KeyboardMsg::Action(KeyboardAction::Release(9))];
    let out = KeyboardWorker::run(&msgs);
    assert_eq!(teardown_count(&out), 1);
    assert_eq!(out.last(), Some(&Emission::Teardown));
}

#[test]
fn keyboard_empty_life_still_tears_down() {
    let out = KeyboardWorker::run(&Vec::new());
    assert_eq!(out, vec![Emission::Teardown]);
}

#[test]
fn keyboard_step_by_step() {
    let mut w = KeyboardWorker::new();
    let out = w.step(&KeyboardMsg::Action(KeyboardAction::Press(44)));
    assert_eq!(out, vec![record(EV_KEY, 44, 1), sync()]);
    let out = w.step(&KeyboardMsg::Shutdown);
    assert_eq!(out, vec![Emission::Teardown]);
}

#[test]
fn absolute_move_frame_has_both_axes_and_sync() {
    let msgs = vec![
        AbsoluteMouseMsg::Action(AbsoluteMouseAction::Move(100, 200)),
        AbsoluteMouseMsg::Shutdown,
    ];
    let out = AbsoluteMouseWorker::run(&msgs);
    assert_eq!(
        out,
        vec![
            record(EV_ABS, 0, 100),
            record(EV_ABS, 1, 200),
            sync(),
            Emission::Teardown,
        ]
    );
}

#[test]
fn absolute_buttons_map_one_for_one() {
    let msgs = vec![
        AbsoluteMouseMsg::Action(AbsoluteMouseAction::Press(0x110)),
        AbsoluteMouseMsg::Action(AbsoluteMouseAction::Release(0x110)),
    ];
    let out = AbsoluteMouseWorker::run(&msgs);
    assert_eq!(
        out,
        vec![
            record(EV_KEY, 0x110, 1),
            sync(),
            record(EV_KEY, 0x110, 0),
            sync(),
            Emission::Teardown,
        ]
    );
    assert_eq!(teardown_count(&out), 1);
}

#[test]
fn absolute_teardown_exactly_once() {
    let msgs = vec![
        AbsoluteMouseMsg::Shutdown,
        AbsoluteMouseMsg::Shutdown,
        AbsoluteMouseMsg::Action(AbsoluteMouseAction::Move(1, 1)),
    ];
    let out = AbsoluteMouseWorker::run(&msgs);
    assert_eq!(out, vec![Emission::Teardown]);
}
