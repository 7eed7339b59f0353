use vstd::prelude::*;

use crate::cipher::{
    decrypt, decrypted, encrypt, plaintext_fits, random_cipher_key, chacha20poly1305_sealed_of,
    NONCE_LEN, TAG_LEN,
};
use crate::bytes::{copy_bytes, prefix_array};
use crate::error::TextError;
use crate::format::TextSignFormat;
use crate::keys::{loaded_secret, SECRET_KEY_LEN};
use crate::mac::{mac_tag, Blake3};
use crate::signature::{
    loaded_public_key, signature_check, signature_tag, Ed25519Signer, Ed25519Verifier,
};
use crate::traits::{KeyGenerator, TextSign, TextVerify};

verus! {

/// What `process_text_sign` yields for `data`, the raw key material `key` and
/// the algorithm `format`.
pub open spec fn text_signed(
    data: Seq<u8>,
    key: Seq<u8>,
    format: TextSignFormat,
) -> Result<Seq<char>, TextError> {
    match format {
        TextSignFormat::Blake3 => match loaded_secret(key) {
            Ok(k) => Ok(mac_tag(k, data)),
            Err(e) => Err(e),
        },
        TextSignFormat::ED25519 => match loaded_secret(key) {
            Ok(k) => Ok(signature_tag(k, data)),
            Err(e) => Err(e),
        },
        TextSignFormat::ChaCha20Poly1305 => Err(TextError::UnsupportedAlgorithm),
    }
}

/// What `process_text_verify` yields for `data`, the raw key material `key`,
/// the algorithm `format` and the encoded candidate `sign`.
pub open spec fn text_verified(
    data: Seq<u8>,
    key: Seq<u8>,
    format: TextSignFormat,
    sign: Seq<char>,
) -> Result<bool, TextError> {
    match format {
        TextSignFormat::Blake3 => match loaded_secret(key) {
            Ok(k) => Ok(sign == mac_tag(k, data)),
            Err(e) => Err(e),
        },
        TextSignFormat::ED25519 => match loaded_public_key(key) {
            Ok(k) => signature_check(k, data, sign),
            Err(e) => Err(e),
        },
        TextSignFormat::ChaCha20Poly1305 => Err(TextError::UnsupportedAlgorithm),
    }
}

/// Signs `data` with the key material `key` under the MAC or signature
/// algorithm `format`.
pub fn process_text_sign(
    data: &[u8],
    key: &[u8],
    format: TextSignFormat,
) -> (r: Result<String, TextError>)
    ensures
        match r {
            Ok(s) => text_signed(data@, key@, format) == Ok::<Seq<char>, TextError>(s@),
            Err(e) => text_signed(data@, key@, format) == Err::<Seq<char>, TextError>(e),
        },
{
    match format {
        TextSignFormat::Blake3 => match Blake3::try_new(key) {
            Ok(mac) => mac.sign(data),
            Err(e) => Err(e),
        },
        TextSignFormat::ED25519 => match Ed25519Signer::try_new(key) {
            Ok(signer) => signer.sign(data),
            Err(e) => Err(e),
        },
        TextSignFormat::ChaCha20Poly1305 => Err(TextError::UnsupportedAlgorithm),
    }
}

/// Checks the encoded candidate `sign` over `data` with the key material
/// `key` under the MAC or signature algorithm `format`.
pub fn process_text_verify(
    data: &[u8],
    key: &[u8],
    format: TextSignFormat,
    sign: String,
) -> (r: Result<bool, TextError>)
    ensures
        r == text_verified(data@, key@, format, sign@),
{
    match format {
        TextSignFormat::Blake3 => match Blake3::try_new(key) {
            Ok(mac) => mac.verify(data, sign),
            Err(e) => Err(e),
        },
        TextSignFormat::ED25519 => match Ed25519Verifier::try_new(key) {
            Ok(verifier) => verifier.verify(data, sign),
            Err(e) => Err(e),
        },
        TextSignFormat::ChaCha20Poly1305 => Err(TextError::UnsupportedAlgorithm),
    }
}

/// Whether `keys` has the number and shape of artifacts that `format` needs.
pub open spec fn generated_keys_fit(format: TextSignFormat, keys: Seq<Seq<u8>>) -> bool {
    match format {
        TextSignFormat::Blake3 => Blake3::well_formed_keys(keys),
        TextSignFormat::ED25519 => Ed25519Signer::well_formed_keys(keys),
        TextSignFormat::ChaCha20Poly1305 => keys.len() == 1 && keys[0].len() == SECRET_KEY_LEN,
    }
}

/// Generates fresh key material for `format`: one 32-byte secret for the MAC
/// and the cipher, a seed and its public key for signatures.
pub fn process_key_generate(format: TextSignFormat) -> (r: Result<Vec<Vec<u8>>, TextError>)
    ensures
        r matches Ok(keys) && generated_keys_fit(format, keys@.map_values(|k: Vec<u8>| k@)),
{
    match format {
        TextSignFormat::Blake3 => Blake3::generate(),
        TextSignFormat::ED25519 => Ed25519Signer::generate(),
        TextSignFormat::ChaCha20Poly1305 => {
            let key = random_cipher_key();
            let mut keys: Vec<Vec<u8>> = Vec::new();
            keys.push(copy_bytes(&key));
            assert(keys@.map_values(|k: Vec<u8>| k@)[0] == key@);
            Ok(keys)
        },
    }
}

/// Signatures come as two artifacts, the MAC and the cipher as one.
pub proof fn lemma_generated_artifact_counts(format: TextSignFormat, keys: Seq<Seq<u8>>)
    requires
        generated_keys_fit(format, keys),
    ensures
        format == TextSignFormat::ED25519 ==> keys.len() == 2,
        format != TextSignFormat::ED25519 ==> keys.len() == 1,
{
}

/// A frame shorter than a nonce is refused as too short before the key is
/// looked at.
pub proof fn lemma_short_frame_refused_first(frame: Seq<u8>, key: Seq<u8>)
    requires
        frame.len() < NONCE_LEN,
    ensures
        text_decrypted(frame, key) == Err::<Seq<u8>, TextError>(TextError::CiphertextTooShort),
{
}

/// What the raw material `raw` gives as a cipher key: exactly 32 bytes.
pub open spec fn cipher_key(raw: Seq<u8>) -> Result<Seq<u8>, TextError> {
    if raw.len() < SECRET_KEY_LEN {
        Err(TextError::KeyTooShort { min_len: SECRET_KEY_LEN })
    } else if raw.len() > SECRET_KEY_LEN {
        Err(TextError::InvalidKeyLength { expected: SECRET_KEY_LEN })
    } else {
        Ok(raw)
    }
}

/// Checks that `raw` is exactly one cipher key long.
fn load_cipher_key(raw: &[u8]) -> (r: Result<[u8; 32], TextError>)
    ensures
        match r {
            Ok(k) => cipher_key(raw@) == Ok::<Seq<u8>, TextError>(k@),
            Err(e) => cipher_key(raw@) == Err::<Seq<u8>, TextError>(e),
        },
{
    if raw.len() < SECRET_KEY_LEN {
        Err(TextError::KeyTooShort { min_len: SECRET_KEY_LEN })
    } else if raw.len() > SECRET_KEY_LEN {
        Err(TextError::InvalidKeyLength { expected: SECRET_KEY_LEN })
    } else {
        let k: [u8; 32] = prefix_array(raw);
        assert(k@ =~= raw@);
        Ok(k)
    }
}

/// Encrypts `data` under the 32-byte cipher key `key` into a frame
/// `nonce || ciphertext || tag`, with a nonce drawn for this call alone.
pub fn process_text_encrypt(data: &[u8], key: &[u8]) -> (r: Result<Vec<u8>, TextError>)
    requires
        plaintext_fits(data@.len()),
    ensures
        match cipher_key(key@) {
            Ok(k) => r matches Ok(frame) && {
                &&& frame@.len() == NONCE_LEN + data@.len() + TAG_LEN
                &&& frame@.subrange(NONCE_LEN as int, frame@.len() as int)
                    == chacha20poly1305_sealed_of(k, frame@.subrange(0, NONCE_LEN as int), data@)
                &&& decrypted(k, frame@) == Ok::<Seq<u8>, TextError>(data@)
            },
            Err(e) => r == Err::<Vec<u8>, TextError>(e),
        },
{
    match load_cipher_key(key) {
        Ok(k) => Ok(encrypt(&k, data)),
        Err(e) => Err(e),
    }
}

/// What `process_text_decrypt` yields for the frame `frame` and the raw key
/// material `key`: a frame shorter than its nonce is refused before the key
/// is looked at.
pub open spec fn text_decrypted(frame: Seq<u8>, key: Seq<u8>) -> Result<Seq<u8>, TextError> {
    if frame.len() < NONCE_LEN {
        Err(TextError::CiphertextTooShort)
    } else {
        match cipher_key(key) {
            Ok(k) => decrypted(k, frame),
            Err(e) => Err(e),
        }
    }
}

/// Decrypts the frame `frame` under the 32-byte cipher key `key`.
pub fn process_text_decrypt(frame: &[u8], key: &[u8]) -> (r: Result<Vec<u8>, TextError>)
    ensures
        match r {
            Ok(p) => text_decrypted(frame@, key@) == Ok::<Seq<u8>, TextError>(p@),
            Err(e) => text_decrypted(frame@, key@) == Err::<Seq<u8>, TextError>(e),
        },
{
    if frame.len() < NONCE_LEN {
        return Err(TextError::CiphertextTooShort);
    }
    match load_cipher_key(key) {
        Ok(k) => decrypt(&k, frame),
        Err(e) => Err(e),
    }
}

} // verus!
