use juxtapose::codec::{decode, encode, text_decode, text_encode, CodecError};
use juxtapose::mac::{compute_mac, derive_key, verify};
use juxtapose::producer::{issue_token, link_query_params};
use juxtapose::resolver::check_request;

fn test_key() -> [u8; 32] {
    derive_key(b"test key material")
}

#[test]
fn encode_is_little_endian_concatenation() {
    let payload = encode(1, 2);
    let mut expected = vec![1u8, 0, 0, 0, 0, 0, 0, 0];
    expected.extend_from_slice(&[2u8, 0, 0, 0, 0, 0, 0, 0]);
    assert_eq!(payload, expected);
}

#[test]
fn decode_inverts_encode() {
    let pairs: &[(u64, u64)] = &[
        (0, 0),
        (1, 2),
        (123456789012345, 987654321098765),
        (u64::MAX, u64::MAX),
        (u64::MAX, 0),
    ];
    for &(m, c) in pairs {
        let payload = encode(m, c);
        assert_eq!(decode(&payload), Ok((m, c)));
    }
}

#[test]
fn decode_rejects_length_17() {
    let bytes = [7u8; 17];
    assert_eq!(decode(&bytes), Err(CodecError::WrongLength));
}

#[test]
fn decode_accepts_length_16_and_24() {
    let mut bytes = vec![0u8; 16];
    bytes[0] = 5;
    bytes[8] = 9;
    assert_eq!(decode(&bytes), Ok((5, 9)));

    // A longer well-formed payload decodes from its first two blocks.
    bytes.extend_from_slice(&[0xffu8; 8]);
    assert_eq!(bytes.len(), 24);
    assert_eq!(decode(&bytes), Ok((5, 9)));
}

#[test]
fn decode_rejects_short_lengths() {
    assert_eq!(decode(&[]), Err(CodecError::WrongLength));
    assert_eq!(decode(&[0u8; 8]), Err(CodecError::WrongLength));
    assert_eq!(decode(&[0u8; 15]), Err(CodecError::WrongLength));
}

#[test]
fn text_encode_known_value() {
    assert_eq!(text_encode(b"hello"), "aGVsbG8");
    assert_eq!(text_encode(b""), "");
}

#[test]
fn text_encode_is_url_safe() {
    // 0xfb 0xff forces the two alphabet characters that differ from the
    // standard alphabet: `-` and `_` instead of `+` and `/`.
    let encoded = text_encode(&[0xfb, 0xff, 0xfe]);
    assert_eq!(encoded, "-__-");
}

#[test]
fn text_decode_inverts_text_encode() {
    let samples: &[&[u8]] = &[b"", b"a", b"ab", b"abc", &[0u8, 255, 128, 7]];
    for &sample in samples {
        let text = text_encode(sample);
        assert_eq!(text_decode(&text), Ok(sample.to_vec()));
    }
}

#[test]
fn text_decode_rejects_padding_and_garbage() {
    assert_eq!(text_decode("aGVsbG8="), Err(CodecError::Malformed));
    assert_eq!(text_decode("a!b"), Err(CodecError::Malformed));
    assert_eq!(text_decode("a"), Err(CodecError::Malformed));
    // Standard-alphabet characters are not in the URL-safe alphabet.
    assert_eq!(text_decode("+/"), Err(CodecError::Malformed));
}

#[test]
fn mac_verifies_only_itself() {
    let key = test_key();
    let payload = encode(42, 43);
    let tag = compute_mac(&key, &payload);
    assert!(verify(&key, &payload, &tag));

    let other_payload = encode(42, 44);
    assert!(!verify(&key, &other_payload, &tag));

    let other_key = derive_key(b"other key material");
    assert!(!verify(&other_key, &payload, &tag));
}

#[test]
fn mac_rejects_wrong_length_candidates() {
    let key = test_key();
    let payload = encode(1, 2);
    let tag = compute_mac(&key, &payload);
    assert!(!verify(&key, &payload, &tag[..15]));
    let mut long = tag.to_vec();
    long.push(0);
    assert!(!verify(&key, &payload, &long));
    assert!(!verify(&key, &payload, &[]));
}

#[test]
fn mac_rejects_every_single_bit_flip() {
    let key = test_key();
    let payload = encode(123456789012345, 987654321098765);
    let tag = compute_mac(&key, &payload);
    for byte in 0..16 {
        for bit in 0..8 {
            let mut tampered = tag;
            tampered[byte] ^= 1 << bit;
            assert!(!verify(&key, &payload, &tampered));
        }
    }
}

#[test]
fn derived_key_is_deterministic() {
    assert_eq!(derive_key(b"material"), derive_key(b"material"));
}

#[test]
fn issued_token_passes_check_request() {
    let key = test_key();
    let token = issue_token(&key, 123456789012345, 987654321098765);
    let payload = check_request(&key, &token.data_text, &token.mac_text)
        .expect("an issued token must authenticate");
    assert_eq!(decode(&payload), Ok((123456789012345, 987654321098765)));
}

#[test]
fn link_query_params_carry_token_and_orientation() {
    let key = test_key();
    let token = issue_token(&key, 7, 8);
    let params = link_query_params(&token, false);
    assert_eq!(params.len(), 3);
    assert_eq!(params[0].0, "d");
    assert_eq!(params[0].1, token.data_text);
    assert_eq!(params[1].0, "m");
    assert_eq!(params[1].1, token.mac_text);
    assert_eq!(params[2], ("o".to_string(), "h".to_string()));

    let vertical = link_query_params(&token, true);
    assert_eq!(vertical[2], ("o".to_string(), "v".to_string()));
}
