use opaque_flow::{decode_b64, encode_b64, OpaqueError};

#[test]
fn encode_then_decode_round_trips() {
    let cases: Vec<Vec<u8>> = vec![
        vec![],
        vec![0],
        vec![255, 254, 253],
        b"correct horse battery staple".to_vec(),
        (0u8..=255).collect(),
    ];
    for data in cases {
        let text = encode_b64(&data);
        assert_eq!(decode_b64(&text).unwrap(), data);
    }
}

#[test]
fn encoding_is_url_safe_without_padding() {
    // 0xfb 0xff encodes to "-_8" in the URL-safe alphabet; no '=' padding.
    assert_eq!(encode_b64(&[0xfb, 0xff]), "-_8");
    assert_eq!(encode_b64(&[]), "");
    assert!(!encode_b64(&(0u8..=255).collect::<Vec<u8>>()).contains('='));
}

#[test]
fn decode_accepts_the_standard_alphabet_and_padding() {
    // "+/8=" uses the standard alphabet with padding.
    assert_eq!(decode_b64("+/8=").unwrap(), vec![0xfb, 0xff]);
    // The same bytes unpadded.
    assert_eq!(decode_b64("+/8").unwrap(), vec![0xfb, 0xff]);
    // And in the URL-safe alphabet.
    assert_eq!(decode_b64("-_8").unwrap(), vec![0xfb, 0xff]);
}

#[test]
fn decode_trims_surrounding_whitespace() {
    assert_eq!(decode_b64("  -_8\n").unwrap(), vec![0xfb, 0xff]);
    assert_eq!(decode_b64("\tAA==  ").unwrap(), vec![0]);
}

#[test]
fn decode_rejects_text_that_is_not_base64() {
    assert_eq!(
        decode_b64("not base64!").unwrap_err(),
        OpaqueError::SerializationFailure
    );
    assert_eq!(decode_b64("a").unwrap_err(), OpaqueError::SerializationFailure);
}
