use kinput::Key;

#[test]
fn key_codes_round_trip_through_the_table() {
    let keys = [
        Key::Esc,
        Key::Num1,
        Key::Num0,
        Key::Q,
        Key::P,
        Key::A,
        Key::L,
        Key::Z,
        Key::M,
        Key::Enter,
        Key::Space,
        Key::LeftShift,
        Key::Down,
    ];
    for k in keys {
        assert_eq!(Key::from_code(k.value()), Some(k));
    }
}

#[test]
fn unknown_codes_have_no_key() {
    for code in [0u16, 12, 13, 116, 272, 999, u16::MAX] {
        assert_eq!(Key::from_code(code), None);
    }
}

#[test]
fn key_values_are_the_kernel_codes() {
    assert_eq!(Key::A.value(), 30);
    assert_eq!(Key::Q.value(), 16);
    assert_eq!(Key::Z.value(), 44);
    assert_eq!(Key::Num1.value(), 2);
    assert_eq!(Key::Enter.value(), 28);
    assert_eq!(Key::Space.value(), 57);
    assert_eq!(Key::LeftShift.value(), 42);
}
