use kinput::channel::BoundedChannel;
use kinput::{InputReader, Key};

#[test]
fn send_on_full_channel_is_refused_until_consumer_advances() {
    // A channel at capacity with a paused consumer: the next send is
    // refused — backpressure, not dropping — and succeeds as soon as the
    // consumer advances by one slot.
    let mut c: BoundedChannel<u32> = BoundedChannel::new(2);
    assert!(c.try_send(1));
    assert!(c.try_send(2));
    assert!(c.is_full());
    assert!(!c.try_send(3));
    // Nothing was dropped by the refused send.
    assert_eq!(c.len(), 2);
    // The consumer advances by one slot.
    assert_eq!(c.recv(), Some(1));
    // Now the producer's retry succeeds.
    assert!(c.try_send(3));
    assert_eq!(c.recv(), Some(2));
    assert_eq!(c.recv(), Some(3));
    assert_eq!(c.recv(), None);
}

#[test]
fn channel_is_fifo() {
    let mut c: BoundedChannel<u16> = BoundedChannel::new(8);
    for v in [5, 9, 1, 7] {
        assert!(c.try_send(v));
    }
    assert_eq!(c.recv(), Some(5));
    assert_eq!(c.recv(), Some(9));
    assert_eq!(c.recv(), Some(1));
    assert_eq!(c.recv(), Some(7));
    assert_eq!(c.recv(), None);
}

#[test]
fn reader_delivers_forwarded_keys_in_order() {
    let mut r = InputReader::new();
    assert_eq!(r.receive(), None);
    assert!(r.forward(Key::A));
    assert!(r.forward(Key::Enter));
    assert_eq!(r.receive(), Some(Key::A));
    assert_eq!(r.receive(), Some(Key::Enter));
    assert_eq!(r.receive(), None);
}

#[test]
fn reader_backpressure_at_consumer_capacity() {
    let mut r = InputReader::new();
    for _ in 0..4096 {
        assert!(r.forward(Key::Space));
    }
    // The consumer channel is at its fixed capacity: forwarding blocks
    // (here: is refused) instead of dropping.
    assert!(!r.forward(Key::Space));
    assert_eq!(r.receive(), Some(Key::Space));
    assert!(r.forward(Key::Space));
}
