use rcli::{
    decrypt, encrypt, load_secret, process_key_generate, process_text_decrypt,
    process_text_encrypt, process_text_sign, process_text_verify, Blake3, Ed25519Signer,
    Ed25519Verifier, KeyGenerator, TextError, TextSign, TextSignFormat, TextVerify,
};

fn hex(s: &str) -> Vec<u8> {
    (0..s.len())
        .step_by(2)
        .map(|i| u8::from_str_radix(&s[i..i + 2], 16).unwrap())
        .collect()
}

const RFC8032_SEED: &str = "9d61b19deffd5a60ba844af492ec2cc44449c5697b326919703bac031cae7f60";
const RFC8032_PUBLIC: &str = "d75a980182b10ab7d54bfed3c964073a0ee172f3daa62325af021a68f707511a";
const RFC8032_EMPTY_SIG: &str =
    "5VZDAMNgrHKQhuLMgG6CioSHfx645dl02HPgZSJJAVVfuIIVkKM7rMYeOXAc-bRr0lv18FlbviRlUUFDjnoQCw";

#[test]
fn test_blake3_sign_and_verify() {
    let key = Blake3::generate().unwrap();
    let blake3 = Blake3::try_new(&key[0]).unwrap();
    let data = b"Hello, rust!";
    let signed = blake3.sign(data).unwrap();
    assert!(blake3.verify(data, signed).is_ok());
}

#[test]
fn test_ed25519_sign_and_verify() {
    let key = Ed25519Signer::generate().unwrap();
    let singer = Ed25519Signer::try_new(&key[0]).unwrap();
    let data = b"Hello, rust!";
    let signed = singer.sign(data).unwrap();
    let verifier = Ed25519Verifier::try_new(&key[1]).unwrap();
    assert!(verifier.verify(data, signed).is_ok());
}

#[test]
fn mac_round_trip_accepts() {
    let key = [7u8; 32];
    let mac = Blake3::new(key);
    for data in [&b""[..], &b"a"[..], &b"Hello, rust!"[..], &[0u8; 1000][..]] {
        let tag = mac.sign(data).unwrap();
        assert_eq!(mac.verify(data, tag), Ok(true));
    }
}

#[test]
fn mac_other_key_rejects() {
    let data = b"some data";
    let tag = Blake3::new([1u8; 32]).sign(data).unwrap();
    assert_eq!(Blake3::new([2u8; 32]).verify(data, tag), Ok(false));
}

#[test]
fn mac_hello_world_zero_key() {
    let key = [0u8; 32];
    let data = b"Hello, world!";
    let tag = process_text_sign(data, &key, TextSignFormat::Blake3).unwrap();
    assert_eq!(tag, process_text_sign(data, &key, TextSignFormat::Blake3).unwrap());
    assert_eq!(tag.len(), 43);
    assert!(tag.bytes().all(|c| c.is_ascii_alphanumeric() || c == b'-' || c == b'_'));
    assert_eq!(
        process_text_verify(data, &key, TextSignFormat::Blake3, tag.clone()),
        Ok(true)
    );
    let mut mutated: Vec<u8> = tag.clone().into_bytes();
    mutated[0] = if mutated[0] == b'A' { b'B' } else { b'A' };
    let mutated = String::from_utf8(mutated).unwrap();
    assert_eq!(
        process_text_verify(data, &key, TextSignFormat::Blake3, mutated),
        Ok(false)
    );
    let other = process_text_sign(b"Hello, world?", &key, TextSignFormat::Blake3).unwrap();
    assert_ne!(tag, other);
}

#[test]
fn mac_key_is_truncated_to_32_bytes() {
    let data = b"data";
    let mut long = vec![3u8; 32];
    long.extend_from_slice(&[9u8; 10]);
    assert_eq!(
        process_text_sign(data, &long, TextSignFormat::Blake3),
        process_text_sign(data, &[3u8; 32], TextSignFormat::Blake3)
    );
}

#[test]
fn ed25519_known_answer() {
    let seed = hex(RFC8032_SEED);
    let sig = process_text_sign(b"", &seed, TextSignFormat::ED25519).unwrap();
    assert_eq!(sig, RFC8032_EMPTY_SIG);
    let public = hex(RFC8032_PUBLIC);
    assert_eq!(
        process_text_verify(b"", &public, TextSignFormat::ED25519, sig),
        Ok(true)
    );
}

#[test]
fn ed25519_generated_pair_is_consistent() {
    let keys = process_key_generate(TextSignFormat::ED25519).unwrap();
    assert_eq!(keys.len(), 2);
    let data = b"payload";
    let sig = process_text_sign(data, &keys[0], TextSignFormat::ED25519).unwrap();
    assert_eq!(
        process_text_verify(data, &keys[1], TextSignFormat::ED25519, sig.clone()),
        Ok(true)
    );
    assert_eq!(
        process_text_verify(b"payloaD", &keys[1], TextSignFormat::ED25519, sig.clone()),
        Ok(false)
    );
    let other = process_key_generate(TextSignFormat::ED25519).unwrap();
    assert_eq!(
        process_text_verify(data, &other[1], TextSignFormat::ED25519, sig),
        Ok(false)
    );
}

#[test]
fn ed25519_candidate_not_base64() {
    let public = hex(RFC8032_PUBLIC);
    assert_eq!(
        process_text_verify(b"", &public, TextSignFormat::ED25519, "not base64!".to_string()),
        Err(TextError::DecodeError)
    );
}

#[test]
fn ed25519_candidate_wrong_length() {
    let public = hex(RFC8032_PUBLIC);
    assert_eq!(
        process_text_verify(b"", &public, TextSignFormat::ED25519, "AAAA".to_string()),
        Err(TextError::DecodeError)
    );
}

#[test]
fn ed25519_invalid_public_key() {
    let mut bad = vec![0xffu8; 32];
    bad[31] = 0x7f;
    let mut found = false;
    for b in 0u8..=255 {
        bad[0] = b;
        if Ed25519Verifier::try_new(&bad).is_err() {
            found = true;
            assert_eq!(
                process_text_verify(b"", &bad, TextSignFormat::ED25519, RFC8032_EMPTY_SIG.to_string()),
                Err(TextError::InvalidPublicKey)
            );
            break;
        }
    }
    assert!(found);
}

#[test]
fn sign_with_cipher_is_unsupported() {
    let key = [0u8; 32];
    assert_eq!(
        process_text_sign(b"x", &key, TextSignFormat::ChaCha20Poly1305),
        Err(TextError::UnsupportedAlgorithm)
    );
    assert_eq!(
        process_text_verify(b"x", &key, TextSignFormat::ChaCha20Poly1305, String::new()),
        Err(TextError::UnsupportedAlgorithm)
    );
}

#[test]
fn load_secret_boundaries() {
    assert_eq!(load_secret(&[1u8; 31]), Err(TextError::KeyTooShort { min_len: 32 }));
    assert_eq!(load_secret(&[1u8; 32]), Ok([1u8; 32]));
    let mut long = vec![2u8; 32];
    long.push(5);
    assert_eq!(load_secret(&long), Ok([2u8; 32]));
    assert_eq!(load_secret(&[]), Err(TextError::KeyTooShort { min_len: 32 }));
}

#[test]
fn short_key_is_refused_everywhere() {
    let key = [0u8; 31];
    assert_eq!(
        process_text_sign(b"x", &key, TextSignFormat::ED25519),
        Err(TextError::KeyTooShort { min_len: 32 })
    );
    assert_eq!(
        process_text_encrypt(b"x", &key),
        Err(TextError::KeyTooShort { min_len: 32 })
    );
    assert_eq!(
        process_text_decrypt(&[0u8; 40], &key),
        Err(TextError::KeyTooShort { min_len: 32 })
    );
}

#[test]
fn cipher_key_must_be_exact() {
    let key = [0u8; 33];
    assert_eq!(
        process_text_encrypt(b"x", &key),
        Err(TextError::InvalidKeyLength { expected: 32 })
    );
}

#[test]
fn key_generation_cardinality() {
    let b = process_key_generate(TextSignFormat::Blake3).unwrap();
    assert_eq!(b.len(), 1);
    assert_eq!(b[0].len(), 32);
    let e = process_key_generate(TextSignFormat::ED25519).unwrap();
    assert_eq!(e.len(), 2);
    assert_eq!(e[0].len(), 32);
    assert_eq!(e[1].len(), 32);
    let c = process_key_generate(TextSignFormat::ChaCha20Poly1305).unwrap();
    assert_eq!(c.len(), 1);
    assert_eq!(c[0].len(), 32);
    let c2 = process_key_generate(TextSignFormat::ChaCha20Poly1305).unwrap();
    assert_ne!(c[0], c2[0]);
}

#[test]
fn encrypt_round_trip() {
    let key = [42u8; 32];
    for data in [&b""[..], &b"Hello, world!"[..], &[1u8; 300][..]] {
        let frame = process_text_encrypt(data, &key).unwrap();
        assert_eq!(frame.len(), 12 + data.len() + 16);
        if !data.is_empty() {
            assert_ne!(&frame[12..12 + data.len()], data);
        }
        assert_eq!(process_text_decrypt(&frame, &key), Ok(data.to_vec()));
    }
}

#[test]
fn encrypt_empty_data() {
    let key = [9u8; 32];
    let frame = encrypt(&key, b"");
    assert!(frame.len() >= 12);
    assert_eq!(frame.len(), 28);
    assert_eq!(decrypt(&key, &frame), Ok(Vec::new()));
}

#[test]
fn encrypt_uses_fresh_nonces() {
    let key = [5u8; 32];
    let a = encrypt(&key, b"same data");
    let b = encrypt(&key, b"same data");
    assert_ne!(a[..12], b[..12]);
    assert_ne!(a, b);
}

#[test]
fn tampered_frame_fails_authentication() {
    let key = [11u8; 32];
    let frame = encrypt(&key, b"attack at dawn");
    for i in 0..frame.len() {
        let mut bad = frame.clone();
        bad[i] ^= 0x01;
        assert_eq!(decrypt(&key, &bad), Err(TextError::AeadAuthenticationFailure));
    }
}

#[test]
fn wrong_key_fails_authentication() {
    let frame = encrypt(&[1u8; 32], b"secret");
    assert_eq!(decrypt(&[2u8; 32], &frame), Err(TextError::AeadAuthenticationFailure));
}

#[test]
fn short_frame_is_refused() {
    let key = [0u8; 32];
    for len in 0..12 {
        let frame = vec![0u8; len];
        assert_eq!(decrypt(&key, &frame), Err(TextError::CiphertextTooShort));
        assert_eq!(
            process_text_decrypt(&frame, &[0u8; 3]),
            Err(TextError::CiphertextTooShort)
        );
    }
    assert_eq!(
        decrypt(&key, &[0u8; 12]),
        Err(TextError::AeadAuthenticationFailure)
    );
}
