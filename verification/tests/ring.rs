use astrid_capsule::process::persistent::ring::{decode_cursor, encode_cursor, LogRing, Overflow};
use astrid_capsule::process::types::{ErrorCode, LogCursor};

#[test]
fn drop_oldest_evicts_and_counts() {
    let mut ring = LogRing::new(4, Overflow::DropOldest);
    assert!(ring.push(b"abcdef"));
    assert_eq!(ring.overflow_dropped(), 2);
    assert_eq!(ring.front_offset(), 2);
    let (data, next, dropped) = ring.read_since(None, 100);
    assert_eq!(data, b"cdef");
    assert_eq!(next, 6);
    assert_eq!(dropped, 0);
}

#[test]
fn cursor_below_front_reports_drop() {
    let mut ring = LogRing::new(4, Overflow::DropOldest);
    ring.push(b"abcdef");
    let (data, next, dropped) = ring.read_since(Some(0), 100);
    assert_eq!(dropped, 2);
    assert_eq!(data, b"cdef");
    assert_eq!(next, 6);
}

#[test]
fn drain_advances_front() {
    let mut ring = LogRing::new(100, Overflow::DropOldest);
    ring.push(b"hello");
    assert_eq!(ring.drain(), b"hello");
    assert_eq!(ring.front_offset(), 5);
    let (data, _next, dropped) = ring.read_since(Some(0), 100);
    assert!(data.is_empty());
    assert_eq!(dropped, 5);
}

#[test]
fn read_since_respects_max() {
    let mut ring = LogRing::new(100, Overflow::DropOldest);
    ring.push(b"abcdefghij");
    let (data, next, _) = ring.read_since(Some(0), 4);
    assert_eq!(data, b"abcd");
    assert_eq!(next, 4);
    let (data2, next2, _) = ring.read_since(Some(next), 100);
    assert_eq!(data2, b"efghij");
    assert_eq!(next2, 10);
}

#[test]
fn backpressure_rejects_when_full() {
    let mut ring = LogRing::new(4, Overflow::Backpressure);
    assert!(ring.push(b"abcd"));
    assert!(!ring.push(b"e"));
    assert_eq!(ring.overflow_dropped(), 0);
}

#[test]
fn backpressure_never_evicts_on_crossing_push() {
    let mut ring = LogRing::new(10, Overflow::Backpressure);
    assert!(ring.push(b"abcdef"));
    assert!(!ring.push(b"ghijkl"));
    assert_eq!(ring.len(), 6);
    assert_eq!(ring.overflow_dropped(), 0);
    let (data, _next, dropped) = ring.read_since(None, 100);
    assert_eq!(data, b"abcdef");
    assert_eq!(dropped, 0);
}

#[test]
fn cursor_roundtrip_and_reject_garbage() {
    let c = encode_cursor(0x1234_5678_9abc_def0);
    assert_eq!(decode_cursor(&c).unwrap(), Some(0x1234_5678_9abc_def0));
    assert_eq!(decode_cursor(&LogCursor { token: None }).unwrap(), None);
    assert!(decode_cursor(&LogCursor { token: Some("zzz".into()) }).is_err());
}

#[test]
fn cursor_tokens_are_sixteen_hexadecimal_digits() {
    assert_eq!(encode_cursor(255).token.unwrap(), "00000000000000ff");
    assert_eq!(encode_cursor(u64::MAX).token.unwrap(), "ffffffffffffffff");
}

#[test]
fn cursor_accepts_what_a_number_may_look_like() {
    let read = |text: &str| decode_cursor(&LogCursor { token: Some(text.into()) });
    assert_eq!(read("+fF"), Ok(Some(255)));
    assert_eq!(read("0000000000000000000000001"), Ok(Some(1)));
    assert_eq!(read(""), Err(ErrorCode::NoSuchProcess));
    assert_eq!(read("+"), Err(ErrorCode::NoSuchProcess));
    assert_eq!(read("-1"), Err(ErrorCode::NoSuchProcess));
    assert_eq!(read("10000000000000000"), Err(ErrorCode::NoSuchProcess));
}

#[test]
fn reads_in_pieces_give_back_what_was_written() {
    let mut ring = LogRing::new(64, Overflow::DropOldest);
    let mut seen: Vec<u8> = Vec::new();
    let mut at: u64 = 0;
    for chunk in [&b"first "[..], &b"second "[..], &b"third"[..]] {
        assert!(ring.push(chunk));
        loop {
            let (data, next, dropped) = ring.read_since(Some(at), 3);
            assert_eq!(dropped, 0);
            at = next;
            if data.is_empty() {
                break;
            }
            seen.extend_from_slice(&data);
        }
    }
    assert_eq!(seen, b"first second third");
    assert_eq!(at, ring.end_offset());
}

#[test]
fn cursor_ahead_of_the_end_reads_nothing() {
    let mut ring = LogRing::new(8, Overflow::DropOldest);
    ring.push(b"abc");
    assert_eq!(ring.read_since(Some(99), 10), (Vec::new(), 3, 0));
}

#[test]
fn every_byte_of_a_run_is_accounted_for() {
    for overflow in [Overflow::DropOldest, Overflow::Backpressure] {
        let mut ring = LogRing::new(5, overflow);
        let mut accepted = 0;
        let mut drained = 0;
        let mut front = 0;
        for step in 0..40usize {
            if step % 7 == 6 {
                drained += ring.drain().len() as u64;
            } else {
                let chunk = vec![b'x'; step % 4];
                if ring.push(&chunk) {
                    accepted += chunk.len() as u64;
                }
            }
            assert!(ring.len() <= 5);
            assert_eq!(ring.end_offset(), accepted);
            assert_eq!(accepted, ring.overflow_dropped() + drained + ring.len() as u64);
            assert!(ring.front_offset() >= front);
            front = ring.front_offset();
        }
        assert_eq!(ring.overflow_dropped() == 0, overflow == Overflow::Backpressure);
    }
}
