use caligula::framing::{decode_len, decode_messages, encode_end, encode_frame, encode_len, encode_messages};

#[test]
fn length_is_big_endian() {
    assert_eq!(encode_len(0x01020304), [1, 2, 3, 4]);
    assert_eq!(decode_len([0, 0, 1, 0]), 256);
    assert_eq!(decode_len(encode_len(u32::MAX)), u32::MAX);
}

#[test]
fn frame_is_length_then_bytes() {
    assert_eq!(encode_frame(b"hi"), vec![0, 0, 0, 2, b'h', b'i']);
    assert_eq!(encode_end(), vec![0, 0, 0, 0]);
}

#[test]
fn stream_skips_empty_messages_and_ends_with_zero() {
    let out = encode_messages(&vec![b"ab".to_vec(), vec![], b"c".to_vec()]);
    assert_eq!(out, vec![0, 0, 0, 2, b'a', b'b', 0, 0, 0, 1, b'c', 0, 0, 0, 0]);
}

#[test]
fn roundtrip_gives_non_empty_messages_then_end_marker() {
    let msgs = vec![b"hello".to_vec(), vec![], vec![0u8; 300], b"x".to_vec()];
    let decoded = decode_messages(&encode_messages(&msgs));
    assert_eq!(decoded, vec![b"hello".to_vec(), vec![0u8; 300], b"x".to_vec(), vec![]]);
}

#[test]
fn decoding_stops_at_truncated_frame() {
    assert_eq!(decode_messages(&[0, 0, 0, 3, 1, 2]), Vec::<Vec<u8>>::new());
    assert_eq!(decode_messages(&[0, 0, 0, 1, 7, 0, 0]), vec![vec![7u8]]);
    assert_eq!(decode_messages(&[]), Vec::<Vec<u8>>::new());
}
