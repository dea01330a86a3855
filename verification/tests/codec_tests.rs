use km_harness::codec::{decode_id, decode_retv, encode_id, encode_retv, WORD_BYTES};

#[test]
fn encode_retv_is_little_endian() {
    assert_eq!(encode_retv(42), vec![0x2A, 0, 0, 0, 0, 0, 0, 0]);
    assert_eq!(encode_retv(-1), vec![0xFF; 8]);
    assert_eq!(
        encode_retv(0x0102030405060708),
        vec![0x08, 0x07, 0x06, 0x05, 0x04, 0x03, 0x02, 0x01]
    );
}

#[test]
fn retv_round_trip() {
    for v in [0isize, 1, -1, 42, -42, isize::MAX, isize::MIN, 0x0102030405060708] {
        let bytes = encode_retv(v);
        assert_eq!(bytes.len(), WORD_BYTES);
        assert_eq!(decode_retv(bytes.as_slice()), v);
    }
}

#[test]
fn encode_id_is_little_endian() {
    assert_eq!(encode_id(99), vec![0x63, 0, 0, 0, 0, 0, 0, 0]);
    assert_eq!(encode_id(0), vec![0; 8]);
}

#[test]
fn decode_id_splits_identifier_and_payload() {
    let mut buf = encode_id(7);
    buf.extend_from_slice(&[1, 2, 3]);
    let (id, payload) = decode_id(buf.as_slice());
    assert_eq!(id, 7);
    assert_eq!(payload, &[1, 2, 3]);
}

#[test]
fn id_round_trip() {
    for id in [0usize, 1, 99, usize::MAX] {
        let bytes = encode_id(id);
        let (decoded, payload) = decode_id(bytes.as_slice());
        assert_eq!(decoded, id);
        assert!(payload.is_empty());
    }
}
