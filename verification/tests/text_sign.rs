use rrcli::{
    generate_key, sign_text, verify_text, Blake3, Ed25519Signer, Ed25519Verifier, KeyGenerator,
    KeyLoader, SignError, TextSign, TextSignFormatType, TextVerify,
};

// Each scheme signs "hello world!" and verifies its own signature, once with
// key bytes spelled out and once with a freshly generated key pair.

#[test]
fn process_text_test_blake3_sign_text() {
    let brick3 = Blake3::load(b"@TfNGXkkUMo2fkA3uEkxyrCPQvBrSEQ4").unwrap();
    let data = b"hello world!";
    let sign = brick3.sign(&data[..]).unwrap();
    let sig = brick3.verify(&data[..], &sign).unwrap();
    assert!(sig);
}

#[test]
fn process_text_test_ed25519_sign_text() {
    let keys = Ed25519Signer::generate().unwrap();
    let sk = Ed25519Signer::load(&keys[0]).unwrap();
    let pk = Ed25519Verifier::load(&keys[1]).unwrap();
    let data = b"hello world!";
    let sign = sk.sign(&data[..]).unwrap();
    let verify = pk.verify(&data[..], &sign).unwrap();
    assert!(verify);
}

#[test]
fn mod_test_blake3_sign_text() {
    let brick3 = Blake3::load(b"@TfNGXkkUMo2fkA3uEkxyrCPQvBrSEQ4").unwrap();
    let data = b"hello world!";
    let sign = brick3.sign(&data[..]).unwrap();
    let sig = brick3.verify(&data[..], &sign).unwrap();
    assert!(sig);
}

#[test]
fn mod_test_ed25519_sign_text() {
    let keys = Ed25519Signer::generate().unwrap();
    let sk = Ed25519Signer::load(&keys[0]).unwrap();
    let pk = Ed25519Verifier::load(&keys[1]).unwrap();
    let data = b"hello world!";
    let sign = sk.sign(&data[..]).unwrap();
    let verify = pk.verify(&data[..], &sign).unwrap();
    assert!(verify);
}

#[test]
fn test_blake3_concrete_round_trip() {
    // Scenario: a key of 32 bytes of 0x01 over the input "hello world!".
    let key = [0x01u8; 32];
    let input = b"hello world!";
    let sig = sign_text(input, &key, TextSignFormatType::Blake3).unwrap();
    // 32 digest bytes encode to 43 unpadded base64 characters.
    assert_eq!(sig.len(), 43);
    let verdict = verify_text(input, &key, &sig, TextSignFormatType::Blake3).unwrap();
    assert!(verdict);
}

#[test]
fn test_ed25519_generated_pair_round_trip() {
    // Scenario: a fresh key pair signs "hello world!"; the derived public key
    // accepts the signature and an unrelated public key rejects it.
    let keys = generate_key(TextSignFormatType::Ed25519).unwrap();
    assert_eq!(keys.len(), 2);
    let input = b"hello world!";
    let sig = sign_text(input, &keys[0], TextSignFormatType::Ed25519).unwrap();
    let verdict = verify_text(input, &keys[1], &sig, TextSignFormatType::Ed25519).unwrap();
    assert!(verdict);

    let other = generate_key(TextSignFormatType::Ed25519).unwrap();
    let verdict = verify_text(input, &other[1], &sig, TextSignFormatType::Ed25519).unwrap();
    assert!(!verdict);
}

#[test]
fn test_symmetric_sign_deterministic() {
    let key = [0x5au8; 32];
    let input = b"the very same input";
    let first = sign_text(input, &key, TextSignFormatType::Blake3).unwrap();
    let second = sign_text(input, &key, TextSignFormatType::Blake3).unwrap();
    assert_eq!(first, second);
}

#[test]
fn test_symmetric_wrong_key_rejects() {
    let input = b"same input, other key";
    let sig = sign_text(input, &[0x01u8; 32], TextSignFormatType::Blake3).unwrap();
    let verdict = verify_text(input, &[0x02u8; 32], &sig, TextSignFormatType::Blake3).unwrap();
    assert!(!verdict);
}

#[test]
fn test_symmetric_key_length_rules() {
    // Fewer than 32 bytes must be rejected; longer material keeps only the
    // first 32 bytes.
    assert_eq!(Blake3::try_new(&[0x01u8; 31]).err(), Some(SignError::KeyFormatError));

    let mut long = vec![0x01u8; 40];
    for (i, byte) in long.iter_mut().enumerate() {
        *byte = i as u8;
    }
    let input = b"truncation, not validation";
    let from_long = sign_text(input, &long, TextSignFormatType::Blake3).unwrap();
    let from_exact = sign_text(input, &long[..32], TextSignFormatType::Blake3).unwrap();
    assert_eq!(from_long, from_exact);
}

#[test]
fn test_asymmetric_key_length_rules() {
    assert_eq!(Ed25519Signer::try_new(&[0x07u8; 31]).err(), Some(SignError::KeyFormatError));
    assert_eq!(Ed25519Signer::try_new(&[0x07u8; 33]).err(), Some(SignError::KeyFormatError));
    assert_eq!(Ed25519Verifier::try_new(&[0x07u8; 31]).err(), Some(SignError::KeyFormatError));
    let input = b"x";
    let sig = sign_text(input, &[0u8; 31], TextSignFormatType::Ed25519);
    assert_eq!(sig.err(), Some(SignError::KeyFormatError));
}

#[test]
fn test_signature_text_with_padding_is_rejected() {
    // Signature transport is url-safe base64 without padding: a padded text
    // fails to decode, whatever else is wrong with the request.
    let key = [0x01u8; 32];
    let verdict = verify_text(b"hello", &key, "aGVsbG8=", TextSignFormatType::Blake3);
    assert_eq!(verdict.err(), Some(SignError::SignatureDecodeError));
}

#[test]
fn test_asymmetric_wrong_signature_length_is_an_error() {
    // 16 signature bytes are well-formed base64 but not a well-formed
    // ed25519 signature: that is an error, not a `false` verdict.
    let keys = generate_key(TextSignFormatType::Ed25519).unwrap();
    let pk = Ed25519Verifier::load(&keys[1]).unwrap();
    let verdict = pk.verify(b"hello", &[0u8; 16]);
    assert_eq!(verdict.err(), Some(SignError::SignatureFormatError));
}

#[test]
fn test_cross_scheme_signatures_never_verify() {
    let sym_key = [0x02u8; 32];
    let keys = generate_key(TextSignFormatType::Ed25519).unwrap();
    let input = b"cross-scheme input";

    // A 32-byte symmetric digest is not a well-formed ed25519 signature.
    let sym_sig = sign_text(input, &sym_key, TextSignFormatType::Blake3).unwrap();
    let verdict = verify_text(input, &keys[1], &sym_sig, TextSignFormatType::Ed25519);
    assert_eq!(verdict.err(), Some(SignError::SignatureFormatError));

    // A 64-byte ed25519 signature never equals a 32-byte digest.
    let asym_sig = sign_text(input, &keys[0], TextSignFormatType::Ed25519).unwrap();
    let verdict = verify_text(input, &sym_key, &asym_sig, TextSignFormatType::Blake3).unwrap();
    assert!(!verdict);
}

#[test]
fn test_flipping_any_byte_breaks_verification() {
    let key = [0x03u8; 32];
    let input = b"tamper with me".to_vec();
    let sig_text = sign_text(&input, &key, TextSignFormatType::Blake3).unwrap();
    let signer = Blake3::try_new(&key).unwrap();
    let sig = signer.sign(&input).unwrap();

    for i in 0..sig.len() {
        let mut tampered = sig.clone();
        tampered[i] ^= 0x10;
        assert!(!signer.verify(&input, &tampered).unwrap());
    }
    for i in 0..input.len() {
        let mut tampered = input.clone();
        tampered[i] ^= 0x10;
        let verdict = verify_text(&tampered, &key, &sig_text, TextSignFormatType::Blake3).unwrap();
        assert!(!verdict);
    }

    let keys = generate_key(TextSignFormatType::Ed25519).unwrap();
    let sk = Ed25519Signer::load(&keys[0]).unwrap();
    let pk = Ed25519Verifier::load(&keys[1]).unwrap();
    let sig = sk.sign(&input).unwrap();
    for i in 0..sig.len() {
        let mut tampered = sig.clone();
        tampered[i] ^= 0x10;
        assert!(!pk.verify(&input, &tampered).unwrap_or(false));
    }
    for i in 0..input.len() {
        let mut tampered = input.clone();
        tampered[i] ^= 0x10;
        assert!(!pk.verify(&tampered, &sig).unwrap());
    }
}

#[test]
fn test_generate_symmetric_key_material() {
    let keys = generate_key(TextSignFormatType::Blake3).unwrap();
    assert_eq!(keys.len(), 1);
    assert_eq!(keys[0].len(), 32);
    // The fresh key is usable directly.
    let sig = sign_text(b"fresh key", &keys[0], TextSignFormatType::Blake3).unwrap();
    assert!(verify_text(b"fresh key", &keys[0], &sig, TextSignFormatType::Blake3).unwrap());
}

#[test]
fn test_error_descriptions_are_distinct() {
    let errors = [
        SignError::InputNotFound,
        SignError::KeyLoadError,
        SignError::KeyFormatError,
        SignError::SignatureDecodeError,
        SignError::SignatureFormatError,
        SignError::CryptoFailure,
    ];
    for (i, a) in errors.iter().enumerate() {
        for (j, b) in errors.iter().enumerate() {
            assert_eq!(i == j, a.describe() == b.describe());
        }
    }
}
