use kinput::coalesce::{RelativeMouseAction, RelativeMouseMsg, RelativeMouseWorker};
use kinput::frames::Emission;
use kinput::records::{EV_KEY, EV_REL, EV_SYN, REL_X, REL_Y, SYN_REPORT};
use kinput::InputEvent;

fn record(type_: u16, code: u16, value: i32) -> Emission {
    Emission::Record(InputEvent { tv_sec: 0, tv_usec: 0, type_, code, value })
}

fn sync() -> Emission {
    record(EV_SYN, SYN_REPORT, 0)
}

fn moves(deltas: &[(i32, i32)]) -> Vec<RelativeMouseMsg> {
    deltas
        .iter()
        .map(|&(dx, dy)| RelativeMouseMsg::Action(RelativeMouseAction::Move(dx, dy)))
        .collect()
}

fn axis_sum(out: &[Emission], code: u16) -> i64 {
    out.iter()
        .map(|e| match e {
            Emission::Record(ev) if ev.type_ == EV_REL && ev.code == code => ev.value as i64,
            _ => 0,
        })
        .sum()
}

#[test]
fn coalescing_preserves_total_displacement() {
    // A burst of moves coalesces into one net frame whose deltas are the
    // exact sums of the inputs.
    let batch = moves(&[(3, 4), (-1, 2), (10, -20), (0, 5)]);
    let mut w = RelativeMouseWorker::new();
    let out = w.run_pass(&batch, true);
    assert_eq!(axis_sum(&out, REL_X), 12);
    assert_eq!(axis_sum(&out, REL_Y), -9);
    assert_eq!(out, vec![record(EV_REL, REL_X, 12), record(EV_REL, REL_Y, -9), sync()]);
}

#[test]
fn displacement_survives_pacing_across_passes() {
    // While the pacing interval has not elapsed nothing is emitted; the
    // displacement stays queued and comes out whole in a later pass.
    let mut w = RelativeMouseWorker::new();
    let out = w.run_pass(&moves(&[(5, 7)]), false);
    assert!(out.is_empty());
    let out = w.run_pass(&moves(&[(-2, 1)]), true);
    assert_eq!(out, vec![record(EV_REL, REL_X, 3), record(EV_REL, REL_Y, 8), sync()]);
}

#[test]
fn zero_delta_axes_are_skipped_but_sync_is_emitted() {
    let mut w = RelativeMouseWorker::new();
    let out = w.run_pass(&moves(&[(4, 0)]), true);
    assert_eq!(out, vec![record(EV_REL, REL_X, 4), sync()]);

    let mut w = RelativeMouseWorker::new();
    let out = w.run_pass(&moves(&[(0, -6)]), true);
    assert_eq!(out, vec![record(EV_REL, REL_Y, -6), sync()]);

    // A fully cancelled net still commits its (empty) frame with one sync.
    let mut w = RelativeMouseWorker::new();
    let out = w.run_pass(&moves(&[(2, 3), (-2, -3)]), true);
    assert_eq!(out, vec![sync()]);
}

#[test]
fn shutdown_mid_pass_flushes_then_tears_down() {
    let mut batch = moves(&[(8, -3)]);
    batch.push(RelativeMouseMsg::Shutdown);
    batch.push(RelativeMouseMsg::Action(RelativeMouseAction::Move(100, 100)));
    let mut w = RelativeMouseWorker::new();
    let out = w.run_pass(&batch, false);
    // The buffered displacement is emitted before the single teardown; the
    // move drained after the shutdown is never processed.
    assert_eq!(
        out,
        vec![record(EV_REL, REL_X, 8), record(EV_REL, REL_Y, -3), sync(), Emission::Teardown]
    );
}

#[test]
fn shutdown_with_nothing_buffered_emits_teardown_only() {
    let mut w = RelativeMouseWorker::new();
    let out = w.run_pass(&vec![RelativeMouseMsg::Shutdown], true);
    assert_eq!(out, vec![Emission::Teardown]);
}

#[test]
fn button_flushes_queued_motion_first() {
    let batch = vec![
        RelativeMouseMsg::Action(RelativeMouseAction::Move(2, 9)),
        RelativeMouseMsg::Action(RelativeMouseAction::Press(0x110)),
        RelativeMouseMsg::Action(RelativeMouseAction::Release(0x110)),
    ];
    let mut w = RelativeMouseWorker::new();
    let out = w.run_pass(&batch, true);
    assert_eq!(
        out,
        vec![
            record(EV_REL, REL_X, 2),
            record(EV_REL, REL_Y, 9),
            sync(),
            record(EV_KEY, 0x110, 1),
            sync(),
            record(EV_KEY, 0x110, 0),
            sync(),
            // End of an elapsed pass: the (empty) net motion frame.
            sync(),
        ]
    );
}

#[test]
fn channel_close_flushes_queued_displacement() {
    let mut w = RelativeMouseWorker::new();
    let out = w.run_pass(&moves(&[(1, 1)]), false);
    assert!(out.is_empty());
    let out = w.finish();
    assert_eq!(out, vec![record(EV_REL, REL_X, 1), record(EV_REL, REL_Y, 1), sync(), Emission::Teardown]);
}

#[test]
fn long_burst_displacement_is_exact() {
    // One hundred drained moves — the drain limit of a single pass — sum
    // exactly.
    let deltas: Vec<(i32, i32)> = (0..100).map(|i| (i - 50, 2 * i)).collect();
    let expected_x: i64 = deltas.iter().map(|&(dx, _)| dx as i64).sum();
    let expected_y: i64 = deltas.iter().map(|&(_, dy)| dy as i64).sum();
    let mut w = RelativeMouseWorker::new();
    let out = w.run_pass(&moves(&deltas), true);
    assert_eq!(axis_sum(&out, REL_X), expected_x);
    assert_eq!(axis_sum(&out, REL_Y), expected_y);
}
