use kinput::facade::{abs_from_px, click_msgs, text_msgs};
use kinput::workers::{KeyboardAction, KeyboardMsg};
use kinput::Key;

#[test]
fn scaling_screen_width_edges() {
    // width = 1920: the first pixel maps to the bottom of the axis range,
    // the last pixel to its top.
    assert_eq!(abs_from_px(0, 1920), 0);
    assert_eq!(abs_from_px(1919, 1920), 65535);
}

#[test]
fn scaling_clamps_out_of_rectangle_pixels() {
    assert_eq!(abs_from_px(-5, 1920), 0);
    assert_eq!(abs_from_px(-1, 1920), 0);
    assert_eq!(abs_from_px(1920, 1920), 65535);
    assert_eq!(abs_from_px(100000, 1920), 65535);
}

#[test]
fn scaling_degenerate_axis_maps_everything_to_zero() {
    for x in [-10, -1, 0, 1, 5, 1000] {
        assert_eq!(abs_from_px(x, 1), 0);
        assert_eq!(abs_from_px(x, 0), 0);
        assert_eq!(abs_from_px(x, -3), 0);
    }
}

#[test]
fn scaling_interior_pixel_exact_value() {
    // (960 * 65535 + 959) / 1919 rounded down.
    assert_eq!(abs_from_px(960, 1920), 32785);
    // (5 * 65535 + 959) / 1919 rounded down.
    assert_eq!(abs_from_px(5, 1920), 171);
}

#[test]
fn scaling_two_pixel_axis() {
    assert_eq!(abs_from_px(0, 2), 0);
    assert_eq!(abs_from_px(1, 2), 65535);
}

#[test]
fn click_is_press_then_release() {
    let msgs = click_msgs(Key::Num1);
    assert_eq!(
        msgs,
        vec![
            KeyboardMsg::Action(KeyboardAction::Press(2)),
            KeyboardMsg::Action(KeyboardAction::Release(2)),
        ]
    );
}

#[test]
fn text_is_a_click_per_key_in_order() {
    let msgs = text_msgs(&vec![Key::H, Key::I]);
    assert_eq!(
        msgs,
        vec![
            KeyboardMsg::Action(KeyboardAction::Press(35)),
            KeyboardMsg::Action(KeyboardAction::Release(35)),
            KeyboardMsg::Action(KeyboardAction::Press(23)),
            KeyboardMsg::Action(KeyboardAction::Release(23)),
        ]
    );
    assert!(text_msgs(&Vec::new()).is_empty());
}
