use kinput::filter::{
    bit_is_set, device_has_basic_keys, is_event_node_name, EV_BITS_BYTES, KEY_BITS_BYTES,
};

const KEY_POWER: u16 = 116;
const BTN_LEFT: u16 = 0x110;
const KEY_A: u16 = 30;
const EV_KEY_BIT: u16 = 0x01;

fn bitmap(len: usize, codes: &[u16]) -> Vec<u8> {
    let mut buf = vec![0u8; len];
    for &code in codes {
        buf[(code / 8) as usize] |= 1 << (code % 8);
    }
    buf
}

#[test]
fn power_button_only_device_is_rejected() {
    // A device exposing only the power key: key events supported, but
    // neither an alphanumeric key nor a pointer button.
    let ev_bits = bitmap(EV_BITS_BYTES, &[EV_KEY_BIT]);
    let key_bits = bitmap(KEY_BITS_BYTES, &[KEY_POWER]);
    assert!(!device_has_basic_keys(&ev_bits, &key_bits));
}

#[test]
fn left_button_only_device_is_accepted() {
    let ev_bits = bitmap(EV_BITS_BYTES, &[EV_KEY_BIT]);
    let key_bits = bitmap(KEY_BITS_BYTES, &[BTN_LEFT]);
    assert!(device_has_basic_keys(&ev_bits, &key_bits));
}

#[test]
fn alphanumeric_key_device_is_accepted() {
    let ev_bits = bitmap(EV_BITS_BYTES, &[EV_KEY_BIT]);
    let key_bits = bitmap(KEY_BITS_BYTES, &[KEY_A]);
    assert!(device_has_basic_keys(&ev_bits, &key_bits));
}

#[test]
fn device_without_key_events_is_rejected() {
    // Key bitmap looks fine, but the event-type bitmap lacks key support.
    let ev_bits = bitmap(EV_BITS_BYTES, &[]);
    let key_bits = bitmap(KEY_BITS_BYTES, &[KEY_A, BTN_LEFT]);
    assert!(!device_has_basic_keys(&ev_bits, &key_bits));
}

#[test]
fn bit_is_set_reads_single_bits() {
    let buf = bitmap(4, &[0, 9, 31]);
    assert!(bit_is_set(&buf, 0));
    assert!(bit_is_set(&buf, 9));
    assert!(bit_is_set(&buf, 31));
    assert!(!bit_is_set(&buf, 1));
    assert!(!bit_is_set(&buf, 8));
    // A code beyond the bitmap is not set.
    assert!(!bit_is_set(&buf, 32));
    assert!(!bit_is_set(&buf, 1000));
}

#[test]
fn event_node_names_are_filtered_by_prefix() {
    assert!(is_event_node_name(b"event0"));
    assert!(is_event_node_name(b"event23"));
    assert!(is_event_node_name(b"event"));
    assert!(!is_event_node_name(b"mouse0"));
    assert!(!is_event_node_name(b"mice"));
    assert!(!is_event_node_name(b"even"));
    assert!(!is_event_node_name(b""));
    assert!(!is_event_node_name(b"Xevent0"));
}
