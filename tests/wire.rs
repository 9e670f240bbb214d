use clash_verge_self_service::wire::{be_decode, be_encode, encode_frame, encode_plaintext, frame_body_len};

#[test]
fn be_encode_known_values() {
    assert_eq!(be_encode(0x0102_0304, 4), vec![1, 2, 3, 4]);
    assert_eq!(be_encode(1, 8), vec![0, 0, 0, 0, 0, 0, 0, 1]);
    assert_eq!(be_encode(0x1ff, 2), vec![1, 0xff]);
    assert_eq!(be_encode(7, 0), Vec::<u8>::new());
    assert_eq!(be_encode(u128::MAX, 16), vec![0xff; 16]);
}

#[test]
fn be_decode_known_values() {
    assert_eq!(be_decode(&[1, 2, 3, 4], 0, 4), 0x0102_0304);
    assert_eq!(be_decode(&[9, 1, 2, 9], 1, 3), 0x0102);
    assert_eq!(be_decode(&[0xff; 16], 0, 16), u128::MAX);
    assert_eq!(be_decode(&[5], 0, 0), 0);
}

#[test]
fn be_round_trip() {
    for x in [0u128, 1, 255, 256, 65_535, 1_700_000_000_123, u64::MAX as u128] {
        assert_eq!(be_decode(&be_encode(x, 16), 0, 16), x);
    }
}

#[test]
fn frame_header_length() {
    assert_eq!(frame_body_len(&[0, 0, 1, 0]), 256);
    assert_eq!(frame_body_len(&[0xff, 0xff, 0xff, 0xff]), 0xffff_ffff);
    assert_eq!(frame_body_len(&[0, 0, 0, 0]), 0);
}

#[test]
fn frame_layout() {
    let nonce = [7u8; 24];
    let f = encode_frame(&nonce, &[1, 2, 3]).unwrap();
    assert_eq!(&f[0..4], &[0, 0, 0, 27]);
    assert_eq!(&f[4..28], &nonce);
    assert_eq!(&f[28..], &[1, 2, 3]);
}

#[test]
fn plaintext_layout() {
    let p = encode_plaintext(0x0102, 0x0a0b, b"hi");
    assert_eq!(p.len(), 26);
    let mut want = vec![0u8; 14];
    want.extend_from_slice(&[1, 2]);
    want.extend_from_slice(&[0, 0, 0, 0, 0, 0, 0x0a, 0x0b]);
    want.extend_from_slice(b"hi");
    assert_eq!(p, want);
}
