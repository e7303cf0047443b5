use halo2_cli::hexcodec::hex_decode;
use halo2_cli::hexcodec::hex_encode;
use halo2_cli::hexcodec::HexDecodeError;

#[test]
fn encode_is_lowercase_pairs() {
    assert_eq!(hex_encode(&vec![1, 2, 3, 15, 16]), "0102030f10");
    assert_eq!(hex_encode(&vec![0xde, 0xad, 0xbe, 0xef]), "deadbeef");
    assert_eq!(hex_encode(&Vec::new()), "");
}

#[test]
fn decode_accepts_both_cases() {
    assert_eq!(hex_decode(&b"deadbeef".to_vec()).unwrap(), vec![0xde, 0xad, 0xbe, 0xef]);
    assert_eq!(hex_decode(&b"DEADBEEF".to_vec()).unwrap(), vec![0xde, 0xad, 0xbe, 0xef]);
}

#[test]
fn round_trip_returns_the_bytes() {
    let bytes: Vec<u8> = (0u16..=255).map(|b| b as u8).collect();
    let text = hex_encode(&bytes);
    let decoded = hex_decode(&text.into_bytes()).unwrap();
    assert_eq!(decoded, bytes);
}

#[test]
fn odd_length_is_rejected() {
    assert!(matches!(hex_decode(&b"abc".to_vec()), Err(HexDecodeError::OddLength)));
}

#[test]
fn first_invalid_character_is_reported() {
    match hex_decode(&b"ab0xcd".to_vec()) {
        Err(HexDecodeError::InvalidHexCharacter { c, index }) => {
            assert_eq!(c, 'x');
            assert_eq!(index, 3);
        }
        other => panic!("expected an invalid-character error, got {:?}", other.is_ok()),
    }
}

#[test]
fn tampered_text_never_decodes_to_the_same_bytes() {
    let bytes: Vec<u8> = vec![0x01, 0x7f, 0xa0];
    let text = hex_encode(&bytes).into_bytes();
    for i in 0..text.len() {
        let mut tampered = text.clone();
        tampered[i] ^= 0x01;
        match hex_decode(&tampered) {
            Ok(other) => assert_ne!(other, bytes),
            Err(_) => {}
        }
    }
}
