use kinput::records::{EV_ABS, EV_KEY, EV_REL};
use kinput::registrar::{
    device_name, device_setup, setup_absolute_mouse, setup_keyboard, setup_relative_mouse,
    SetupCall, UINPUT_NAME_BYTES,
};
use kinput::DeviceType;

#[test]
fn keyboard_plan_declares_full_key_range() {
    let plan = setup_keyboard();
    assert_eq!(plan.len(), 122);
    assert!(matches!(plan[0], SetupCall::SetEventBit(t) if t == EV_KEY));
    for (i, key) in (1..=119u16).enumerate() {
        assert!(matches!(plan[1 + i], SetupCall::SetKeyBit(k) if k == key));
    }
    match &plan[120] {
        SetupCall::DeviceSetup(s) => {
            assert_eq!(s.id.bustype, 0x03);
            assert_eq!(s.id.vendor, 0x1234);
            assert_eq!(s.id.product, 0x5678);
            assert_eq!(s.id.version, 0);
            assert_eq!(s.ff_effects_max, 0);
            assert_eq!(s.name.len(), UINPUT_NAME_BYTES);
            assert!(s.name.starts_with(b"Keyboard device\0"));
            assert!(s.name[b"Keyboard device\0".len()..].iter().all(|&b| b == 0));
        },
        other => panic!("expected the identity record, got {:?}", std::mem::discriminant(other)),
    }
    assert!(matches!(plan[121], SetupCall::Create));
}

#[test]
fn relative_mouse_plan_declares_buttons_and_axes() {
    let plan = setup_relative_mouse();
    assert_eq!(plan.len(), 8);
    assert!(matches!(plan[0], SetupCall::SetEventBit(t) if t == EV_KEY));
    assert!(matches!(plan[1], SetupCall::SetKeyBit(0x110)));
    assert!(matches!(plan[2], SetupCall::SetKeyBit(0x111)));
    assert!(matches!(plan[3], SetupCall::SetEventBit(t) if t == EV_REL));
    assert!(matches!(plan[4], SetupCall::SetRelBit(0)));
    assert!(matches!(plan[5], SetupCall::SetRelBit(1)));
    assert!(matches!(&plan[6], SetupCall::DeviceSetup(s) if s.name.starts_with(b"Relative mouse device\0")));
    assert!(matches!(plan[7], SetupCall::Create));
}

#[test]
fn absolute_mouse_plan_declares_axis_ranges() {
    let plan = setup_absolute_mouse();
    assert_eq!(plan.len(), 10);
    assert!(matches!(plan[0], SetupCall::SetEventBit(t) if t == EV_KEY));
    assert!(matches!(plan[1], SetupCall::SetKeyBit(0x110)));
    assert!(matches!(plan[2], SetupCall::SetKeyBit(0x111)));
    assert!(matches!(plan[3], SetupCall::SetEventBit(t) if t == EV_ABS));
    assert!(matches!(plan[4], SetupCall::SetAbsBit(0)));
    assert!(matches!(plan[5], SetupCall::SetAbsBit(1)));
    assert!(matches!(plan[6], SetupCall::AbsSetup(0, 0, 65535)));
    assert!(matches!(plan[7], SetupCall::AbsSetup(1, 0, 65535)));
    assert!(matches!(&plan[8], SetupCall::DeviceSetup(s) if s.name.starts_with(b"Absolute mouse device\0")));
    assert!(matches!(plan[9], SetupCall::Create));
}

#[test]
fn declared_names_match_their_profiles() {
    assert_eq!(device_name(DeviceType::Keyboard), b"Keyboard device".to_vec());
    assert_eq!(device_name(DeviceType::RelativeMouse), b"Relative mouse device".to_vec());
    assert_eq!(device_name(DeviceType::AbsoluteMouse), b"Absolute mouse device".to_vec());
}

#[test]
fn identity_record_name_is_null_terminated_and_padded() {
    let s = device_setup(DeviceType::RelativeMouse);
    assert_eq!(s.name.len(), UINPUT_NAME_BYTES);
    let text = b"Relative mouse device";
    assert_eq!(&s.name[..text.len()], text);
    assert!(s.name[text.len()..].iter().all(|&b| b == 0));
}
