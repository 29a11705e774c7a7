use futures_mockstream::MockStream;
use futures_mockstream::Packet;
use futures_mockstream::StreamError;

#[test]
fn prop_write_round_trip() {
    let cases: &[&[u8]] = &[&[], &[0], &b"some bytes"[..], &[255, 0, 128, 7]];
    for case in cases {
        let mut ms = MockStream::default();
        let written = ms.write(case).expect("failed to write");
        assert_eq!(written, case.len());
        assert_eq!(ms.as_ref(), *case);
    }
}

#[test]
fn write_inspects_written_packet_on_loaded_stream() {
    // even on a pre-loaded stream the cursor lands on the written packet, so
    // inspection shows exactly the bytes just written
    let packets: &[&[u8]] = &[&b"first packet"[..], &b"second packet"[..]];
    let mut ms = MockStream::from(&packets[..]);
    let written = ms.write(b"third").expect("failed to write");
    assert_eq!(written, 5);
    assert_eq!(ms.as_ref(), b"third");
    assert_eq!(ms.len(), 3);
}

#[test]
fn prop_packet_count_monotonic() {
    let packets: &[&[u8]] = &[&b"one"[..], &b"two"[..]];
    let mut ms = MockStream::from(&packets[..]);
    assert_eq!(ms.len(), 2);
    let writes: &[&[u8]] = &[&b"three"[..], &[], &b"five"[..]];
    for w in writes {
        let _ = ms.write(w).expect("failed to write");
    }
    assert_eq!(ms.len(), 2 + writes.len());
}

#[test]
fn prop_read_exhaustion() {
    let mut ms = MockStream::with_buffer(b"abc");
    let mut buf = [0u8; 16];
    let first = ms.read(&mut buf).expect("failed to read");
    assert_eq!(first, 3);
    for _ in 0..3 {
        let again = ms.read(&mut buf).expect("failed to read");
        assert_eq!(again, 0);
    }
}

#[test]
fn prop_empty_stream_vs_empty_packet() {
    let mut buf = [0u8; 16];

    let mut unloaded = MockStream::default();
    assert!(unloaded.is_empty());
    assert_eq!(unloaded.read(&mut buf), Err(StreamError::ReadOnEmptyStream));

    let mut one_empty_packet = MockStream::with_buffer(&[]);
    assert!(!one_empty_packet.is_empty());
    assert_eq!(one_empty_packet.read(&mut buf), Ok(0));
}

#[test]
fn prop_multi_packet_ordering() {
    let packets: &[&[u8]] = &[&b"alpha"[..], &b"beta"[..], &b"gamma"[..]];
    let mut ms = MockStream::from(&packets[..]);
    for p in packets {
        let mut buf = [0u8; 64];
        let n = ms.read(&mut buf).expect("failed to read");
        assert_eq!(n, p.len());
        assert_eq!(&buf[..n], *p);
    }
    let mut buf = [0u8; 64];
    assert_eq!(ms.read(&mut buf), Ok(0));
}

#[test]
fn prop_block_sequence_ordering() {
    let packets: &[&[u8]] = &[&b"alpha"[..], &b"beta"[..], &b"gamma"[..]];
    let mut ms = MockStream::from(&packets[..]);
    for p in packets {
        let block = ms.next().expect("stream ended early").expect("failed to read");
        assert_eq!(block, *p);
    }
    assert!(ms.next().is_none());
    assert!(ms.next().is_none());
}

#[test]
fn block_sequence_keeps_going_past_empty_packet() {
    let packets: &[&[u8]] = &[&[], &[7u8]];
    let mut ms = MockStream::from(&packets[..]);
    // a drained or empty packet yields a zero-length block, not the end of
    // the sequence: that comes only once no packet remains
    let first = ms.next().expect("stream ended early").expect("failed to read");
    assert_eq!(first.len(), 0);
    let second = ms.next().expect("stream ended early").expect("failed to read");
    assert_eq!(second, vec![7u8]);
    assert!(ms.next().is_none());
    assert!(ms.next().is_none());
}

#[test]
fn block_sequence_propagates_error() {
    let mut ms = MockStream::default();
    match ms.next() {
        Some(Err(StreamError::ReadOnEmptyStream)) => {}
        other => panic!("unexpected item: {:?}", other),
    }
}

#[test]
fn scenario_multi_packet_read() {
    let packets: &[&[u8]] = &[&b"first packet"[..], &b"second packet"[..]];
    let mut ms = MockStream::from(&packets[..]);
    let mut buf = [0u8; 1024];
    let first = ms.read(&mut buf).expect("failed to read");
    assert_eq!(first, 12);
    assert_eq!(&buf[..first], b"first packet");
    let second = ms.read(&mut buf).expect("failed to read");
    assert_eq!(second, 13);
    assert_eq!(&buf[..second], b"second packet");
}

#[test]
fn scenario_write_then_inspect() {
    let buf = b"this is the packet";
    let mut ms = MockStream::default();
    let written = ms.write(buf).expect("failed to write");
    assert_eq!(written, buf.len());
    assert_eq!(ms.as_ref(), &buf[..]);
}

#[test]
fn scenario_empty_write_then_count() {
    let mut ms = MockStream::default();
    let before = ms.len();
    let written = ms.write(&[]).expect("failed to write");
    assert_eq!(written, 0);
    assert_eq!(ms.len(), before + 1);
}

#[test]
fn read_truncated_by_small_buffer() {
    let mut ms = MockStream::with_buffer(b"abcdef");
    let mut buf = [0u8; 4];
    let n = ms.read(&mut buf).expect("failed to read");
    assert_eq!(n, 4);
    assert_eq!(&buf, b"abcd");
    // one read call consumes at most one packet: the next call moves on even
    // though two bytes of the packet were never delivered
    let n = ms.read(&mut buf).expect("failed to read");
    assert_eq!(n, 0);
}

#[test]
fn block_sequence_caps_one_block() {
    let big = vec![7u8; 2000];
    let mut ms = MockStream::with_buffer(&big);
    let block = ms.next().expect("stream ended early").expect("failed to read");
    assert_eq!(block.len(), 1024);
    assert_eq!(block, vec![7u8; 1024]);
    assert!(ms.next().is_none());
}

#[test]
fn flush_and_close_are_noops() {
    let mut ms = MockStream::default();
    assert_eq!(ms.flush(), Ok(()));
    assert_eq!(ms.close(), Ok(()));
    assert_eq!(ms.len(), 0);
    let mut loaded = MockStream::with_buffer(b"payload");
    assert_eq!(loaded.flush(), Ok(()));
    let mut buf = [0u8; 16];
    let n = loaded.read(&mut buf).expect("failed to read");
    assert_eq!(n, 7);
}

#[test]
fn packet_read_write_interleave() {
    let mut p = Packet::from(b"abcd");
    let mut buf = [0u8; 2];
    let n = p.read(&mut buf).expect("failed to read packet");
    assert_eq!(n, 2);
    assert_eq!(&buf, b"ab");
    // a write appends to the end and leaves the read cursor alone
    let written = p.write(b"ef").expect("failed to write to packet");
    assert_eq!(written, 2);
    assert_eq!(p.as_ref(), b"abcdef");
    let n = p.read(&mut buf).expect("failed to read packet");
    assert_eq!(n, 2);
    assert_eq!(&buf, b"cd");
}

#[test]
fn packet_read_past_end() {
    let mut p = Packet::from(b"xy");
    let mut buf = [0u8; 8];
    assert_eq!(p.read(&mut buf), Ok(2));
    assert_eq!(p.read(&mut buf), Ok(0));
    assert_eq!(p.read(&mut buf), Ok(0));
    assert_eq!(p.as_ref(), b"xy");
}
