use pslog::frame::{decode_frame, encode_frame, length_prefix, payload_len};

#[test]
fn header_is_big_endian_length() {
    assert_eq!(length_prefix(0), [0, 0, 0, 0]);
    assert_eq!(length_prefix(1), [0, 0, 0, 1]);
    assert_eq!(length_prefix(0x0102_0304), [1, 2, 3, 4]);
    assert_eq!(length_prefix(300), [0, 0, 1, 44]);
}

#[test]
fn header_wraps_at_32_bits() {
    if usize::BITS > 32 {
        let big = (1u64 << 32) as usize + 5;
        assert_eq!(length_prefix(big), [0, 0, 0, 5]);
    }
}

#[test]
fn header_reads_back() {
    assert_eq!(payload_len([0, 0, 0, 0]), 0);
    assert_eq!(payload_len([1, 2, 3, 4]), 0x0102_0304);
    assert_eq!(payload_len([0xff, 0xff, 0xff, 0xff]), u32::MAX);
    assert_eq!(payload_len(length_prefix(123_456)), 123_456);
}

#[test]
fn frame_is_header_then_payload() {
    let f = encode_frame(b"{\"type\":\"Ping\"}");
    assert_eq!(&f[..4], &[0, 0, 0, 15]);
    assert_eq!(&f[4..], b"{\"type\":\"Ping\"}");
    assert_eq!(encode_frame(&[]), vec![0, 0, 0, 0]);
}

#[test]
fn frame_round_trip_with_trailing_bytes() {
    let payload = b"hello".to_vec();
    let mut stream = encode_frame(&payload);
    stream.extend_from_slice(&[9, 9, 9]);
    let (p, used) = decode_frame(&stream).unwrap();
    assert_eq!(p, payload);
    assert_eq!(used, 9);
    assert_eq!(&stream[used..], &[9, 9, 9]);
}

#[test]
fn consecutive_frames_keep_boundaries() {
    let mut stream = encode_frame(b"one");
    stream.extend(encode_frame(b""));
    stream.extend(encode_frame(b"three"));
    let mut rest: &[u8] = &stream;
    let mut got = Vec::new();
    while let Some((p, used)) = decode_frame(rest) {
        got.push(p);
        rest = &rest[used..];
    }
    assert_eq!(got, vec![b"one".to_vec(), b"".to_vec(), b"three".to_vec()]);
    assert!(rest.is_empty());
}

#[test]
fn incomplete_frames_wait_for_more() {
    assert_eq!(decode_frame(&[]), None);
    assert_eq!(decode_frame(&[0, 0, 0]), None);
    assert_eq!(decode_frame(&[0, 0, 0, 2, 7]), None);
    assert_eq!(decode_frame(&[0, 0, 0, 2, 7, 8]), Some((vec![7, 8], 6)));
    assert_eq!(decode_frame(&[0xff, 0xff, 0xff, 0xff, 1, 2]), None);
}
