use vstd::prelude::*;

use chacha20poly1305::aead::{Aead, AeadCore, KeyInit, OsRng};
use chacha20poly1305::{ChaCha20Poly1305, Key, Nonce};

use crate::bytes::{copy_bytes, prefix_array};
use crate::error::TextError;

verus! {

/// Length in bytes of the nonce that starts every encrypted frame.
pub const NONCE_LEN: usize = 12;

/// Length in bytes of the authentication tag that ends every sealed body.
pub const TAG_LEN: usize = 16;

/// Largest number of 64-byte blocks that one message may span.
pub const MAX_BLOCKS: usize = 4294967295;

/// Whether a message of `len` bytes fits in one ChaCha20-Poly1305 message.
pub open spec fn plaintext_fits(len: nat) -> bool {
    len / 64 < MAX_BLOCKS
}

/// The ChaCha20-Poly1305 ciphertext, tag appended, of `plain` under `key` and `nonce`.
pub uninterp spec fn chacha20poly1305_sealed_of(
    key: Seq<u8>,
    nonce: Seq<u8>,
    plain: Seq<u8>,
) -> Seq<u8>;

/// The plaintext that ChaCha20-Poly1305 recovers from `sealed` under `key` and
/// `nonce`, or `None` when the tag does not validate.
pub uninterp spec fn chacha20poly1305_opened_of(
    key: Seq<u8>,
    nonce: Seq<u8>,
    sealed: Seq<u8>,
) -> Option<Seq<u8>>;

/// Relies on chacha20poly1305's `Aead::encrypt`: it fails only past the block
/// limit, appends a 16-byte tag, and what it returns decrypts to `plain`.
#[verifier::external_body]
fn seal(key: &[u8; 32], nonce: &[u8; 12], plain: &[u8]) -> (r: Vec<u8>)
    requires
        plaintext_fits(plain@.len()),
    ensures
        r@ == chacha20poly1305_sealed_of(key@, nonce@, plain@),
        r@.len() == plain@.len() + TAG_LEN,
        chacha20poly1305_opened_of(key@, nonce@, r@) == Some(plain@),
{
    ChaCha20Poly1305::new(Key::from_slice(key)).encrypt(Nonce::from_slice(nonce), plain).unwrap()
}

/// Relies on chacha20poly1305's `Aead::decrypt`; its error becomes `None`.
#[verifier::external_body]
fn open(key: &[u8; 32], nonce: &[u8; 12], sealed: &[u8]) -> (r: Option<Vec<u8>>)
    ensures
        match r {
            Some(p) => chacha20poly1305_opened_of(key@, nonce@, sealed@) == Some(p@),
            None => chacha20poly1305_opened_of(key@, nonce@, sealed@) is None,
        },
{
    ChaCha20Poly1305::new(Key::from_slice(key)).decrypt(Nonce::from_slice(nonce), sealed).ok()
}

/// Relies on chacha20poly1305's `AeadCore::generate_nonce` over the operating
/// system's random source.
#[verifier::external_body]
fn random_nonce() -> (r: [u8; 12]) {
    ChaCha20Poly1305::generate_nonce(&mut OsRng).into()
}

/// Relies on chacha20poly1305's `KeyInit::generate_key` over the operating
/// system's random source.
#[verifier::external_body]
pub(crate) fn random_cipher_key() -> (r: [u8; 32]) {
    ChaCha20Poly1305::generate_key(&mut OsRng).into()
}

/// What `decrypt` yields for the frame `frame` under `key`: the frame must
/// hold a nonce, and the rest must open under that nonce.
pub open spec fn decrypted(key: Seq<u8>, frame: Seq<u8>) -> Result<Seq<u8>, TextError> {
    if frame.len() < NONCE_LEN {
        Err(TextError::CiphertextTooShort)
    } else {
        match chacha20poly1305_opened_of(
            key,
            frame.subrange(0, NONCE_LEN as int),
            frame.subrange(NONCE_LEN as int, frame.len() as int),
        ) {
            Some(plain) => Ok(plain),
            None => Err(TextError::AeadAuthenticationFailure),
        }
    }
}

/// Encrypts `data` under `key` with a freshly drawn nonce, and returns the
/// frame `nonce || ciphertext || tag`.
pub fn encrypt(key: &[u8; 32], data: &[u8]) -> (r: Vec<u8>)
    requires
        plaintext_fits(data@.len()),
    ensures
        r@.len() == NONCE_LEN + data@.len() + TAG_LEN,
        r@.subrange(NONCE_LEN as int, r@.len() as int) == chacha20poly1305_sealed_of(
            key@,
            r@.subrange(0, NONCE_LEN as int),
            data@,
        ),
        decrypted(key@, r@) == Ok::<Seq<u8>, TextError>(data@),
{
    let nonce = random_nonce();
    let sealed = seal(key, &nonce, data);
    let mut frame = copy_bytes(&nonce);
    let mut i: usize = 0;
    while i < sealed.len()
        invariant
            i <= sealed@.len(),
            frame@ == nonce@ + sealed@.subrange(0, i as int),
        decreases sealed@.len() - i,
    {
        frame.push(sealed[i]);
        i += 1;
    }
    assert(frame@.subrange(0, NONCE_LEN as int) =~= nonce@);
    assert(frame@.subrange(NONCE_LEN as int, frame@.len() as int) =~= sealed@);
    frame
}

/// Splits the frame `frame` into its nonce and sealed body, and decrypts the
/// body under `key`.
pub fn decrypt(key: &[u8; 32], frame: &[u8]) -> (r: Result<Vec<u8>, TextError>)
    ensures
        match r {
            Ok(p) => decrypted(key@, frame@) == Ok::<Seq<u8>, TextError>(p@),
            Err(e) => decrypted(key@, frame@) == Err::<Seq<u8>, TextError>(e),
        },
{
    if frame.len() < NONCE_LEN {
        return Err(TextError::CiphertextTooShort);
    }
    let (head, body) = frame.split_at(NONCE_LEN);
    let nonce: [u8; 12] = prefix_array(head);
    assert(nonce@ =~= frame@.subrange(0, NONCE_LEN as int));
    assert(body@ =~= frame@.subrange(NONCE_LEN as int, frame@.len() as int));
    match open(key, &nonce, body) {
        Some(plain) => Ok(plain),
        None => Err(TextError::AeadAuthenticationFailure),
    }
}

/// A frame shorter than a nonce is refused as too short, whatever the key.
pub proof fn lemma_short_frame_refused(key: Seq<u8>, frame: Seq<u8>)
    requires
        frame.len() < NONCE_LEN,
    ensures
        decrypted(key, frame) == Err::<Seq<u8>, TextError>(TextError::CiphertextTooShort),
{
}

} // verus!
