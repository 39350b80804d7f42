use kinput::records::{decode_event, decode_events, encode_event, EVENT_RECORD_SIZE};
use kinput::InputEvent;

#[test]
fn encoded_record_layout_is_exact() {
    let ev = InputEvent { tv_sec: 1, tv_usec: 2, type_: 0x0102, code: 0x0304, value: -2 };
    let bytes = encode_event(&ev);
    assert_eq!(bytes.len(), EVENT_RECORD_SIZE);
    let mut expected = vec![0u8; 24];
    expected[0] = 1; // seconds, little-endian
    expected[8] = 2; // microseconds
    expected[16] = 0x02; // type
    expected[17] = 0x01;
    expected[18] = 0x04; // code
    expected[19] = 0x03;
    expected[20] = 0xfe; // value -2, two's complement
    expected[21] = 0xff;
    expected[22] = 0xff;
    expected[23] = 0xff;
    assert_eq!(bytes, expected);
}

#[test]
fn codec_round_trips_records() {
    let samples = [
        InputEvent { tv_sec: 0, tv_usec: 0, type_: 0, code: 0, value: 0 },
        InputEvent { tv_sec: -1, tv_usec: 999999, type_: 1, code: 30, value: 1 },
        InputEvent { tv_sec: i64::MAX, tv_usec: i64::MIN, type_: u16::MAX, code: 0x110, value: i32::MIN },
        InputEvent { tv_sec: 1700000000, tv_usec: 123456, type_: 2, code: 1, value: -32768 },
    ];
    for ev in samples {
        let bytes = encode_event(&ev);
        let back = decode_event(&bytes);
        assert_eq!(back, ev);
    }
}

#[test]
fn decode_events_splits_a_read_buffer() {
    let a = InputEvent { tv_sec: 0, tv_usec: 0, type_: 1, code: 30, value: 1 };
    let b = InputEvent { tv_sec: 0, tv_usec: 0, type_: 0, code: 0, value: 0 };
    let mut buf = encode_event(&a);
    buf.extend(encode_event(&b));
    let out = decode_events(&buf);
    assert_eq!(out, vec![a, b]);
}

#[test]
fn decode_events_drops_a_trailing_partial_record() {
    let a = InputEvent { tv_sec: 5, tv_usec: 6, type_: 3, code: 0, value: 500 };
    let mut buf = encode_event(&a);
    buf.extend([1, 2, 3]); // not a whole record
    let out = decode_events(&buf);
    assert_eq!(out, vec![a]);
    assert!(decode_events(&[0u8; 23]).is_empty());
    assert!(decode_events(&[]).is_empty());
}
