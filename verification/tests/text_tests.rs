use kinput::text::{bytes_to_string, write_c_string};

#[test]
fn c_string_write_copies_terminates_and_pads() {
    let mut dest = vec![0xffu8; 8];
    write_c_string(&mut dest, b"abc");
    assert_eq!(dest, vec![b'a', b'b', b'c', 0, 0, 0, 0, 0]);
}

#[test]
fn c_string_write_truncates_to_leave_a_terminator() {
    let mut dest = vec![0xffu8; 4];
    write_c_string(&mut dest, b"abcdefgh");
    assert_eq!(dest, vec![b'a', b'b', b'c', 0]);
}

#[test]
fn c_string_write_leaves_empty_buffer_alone() {
    let mut dest: Vec<u8> = Vec::new();
    write_c_string(&mut dest, b"abc");
    assert!(dest.is_empty());
}

#[test]
fn bytes_to_string_stops_at_the_first_null() {
    let buf = b"USB Keyboard\0\0garbage".to_vec();
    assert_eq!(bytes_to_string(&buf), "USB Keyboard");
}

#[test]
fn bytes_to_string_without_null_takes_everything() {
    assert_eq!(bytes_to_string(b"event7"), "event7");
    assert_eq!(bytes_to_string(b""), "");
    assert_eq!(bytes_to_string(b"\0abc"), "");
}

#[test]
fn bytes_to_string_replaces_invalid_sequences() {
    let buf = vec![b'a', 0xff, b'b'];
    assert_eq!(bytes_to_string(&buf), "a\u{fffd}b");
}
