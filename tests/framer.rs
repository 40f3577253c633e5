use rpresence::framer::{decode, encode, encode_frame};

#[test]
fn encode_writes_little_endian_opcode_then_length() {
    assert_eq!(encode(1, 0), vec![1, 0, 0, 0, 0, 0, 0, 0]);
    assert_eq!(
        encode(0x0403_0201, 0x0807_0605),
        vec![1, 2, 3, 4, 5, 6, 7, 8]
    );
}

#[test]
fn decode_reads_opcode_and_length() {
    assert_eq!(decode(&[2, 0, 0, 0, 0x10, 0x01, 0, 0]), (2, 0x110));
}

#[test]
fn header_round_trip_on_edge_values() {
    for &(op, len) in &[(0u32, 0u32), (1, 17), (2, 256), (u32::MAX, u32::MAX), (7, 0x0100_0000)] {
        let h = encode(op, len);
        assert_eq!(h.len(), 8);
        assert_eq!(decode(&h), (op, len));
    }
}

#[test]
fn frame_is_header_then_payload() {
    let f = encode_frame(1, b"abc");
    assert_eq!(f, vec![1, 0, 0, 0, 3, 0, 0, 0, b'a', b'b', b'c']);
    assert_eq!(encode_frame(2, b""), vec![2, 0, 0, 0, 0, 0, 0, 0]);
}
