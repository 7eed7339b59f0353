use vstd::prelude::*;

use chacha20poly1305::aead::OsRng;
use ed25519_dalek::{Signature, Signer, SigningKey, Verifier, VerifyingKey};

use crate::encoding::{
    base64_url_unpadded_decoded, base64_url_unpadded_of, decode_url_unpadded, encode_url_unpadded,
};
use crate::bytes::{copy_bytes, prefix_array};
use crate::error::TextError;
use crate::keys::{load_secret, loaded_secret, SECRET_KEY_LEN};
use crate::traits::{KeyGenerator, TextSign, TextVerify};

verus! {

/// Length in bytes of an Ed25519 signature.
pub const SIGNATURE_LEN: usize = 64;

/// The 32-byte public key that belongs to the Ed25519 seed `seed`.
pub uninterp spec fn ed25519_public_key_of(seed: Seq<u8>) -> Seq<u8>;

/// The 64-byte Ed25519 signature of `msg` under the seed `seed`.
pub uninterp spec fn ed25519_signature_of(seed: Seq<u8>, msg: Seq<u8>) -> Seq<u8>;

/// Whether the 32 bytes `public` encode a point usable as an Ed25519 public key.
pub uninterp spec fn ed25519_public_key_valid(public: Seq<u8>) -> bool;

/// Whether `sig` is a valid Ed25519 signature of `msg` under the public key `public`.
pub uninterp spec fn ed25519_accepts(public: Seq<u8>, msg: Seq<u8>, sig: Seq<u8>) -> bool;

/// Relies on ed25519-dalek's `SigningKey::sign`. A signature made from a seed
/// verifies under the public key of that seed.
#[verifier::external_body]
fn ed25519_sign(seed: &[u8; 32], msg: &[u8]) -> (r: [u8; 64])
    ensures
        r@ == ed25519_signature_of(seed@, msg@),
        ed25519_accepts(ed25519_public_key_of(seed@), msg@, r@),
{
    SigningKey::from_bytes(seed).sign(msg).to_bytes()
}

/// Relies on ed25519-dalek's `SigningKey::verifying_key`, whose bytes always
/// decode again as a public key.
#[verifier::external_body]
fn ed25519_public_key(seed: &[u8; 32]) -> (r: [u8; 32])
    ensures
        r@ == ed25519_public_key_of(seed@),
        ed25519_public_key_valid(r@),
{
    SigningKey::from_bytes(seed).verifying_key().to_bytes()
}

/// Relies on ed25519-dalek's `VerifyingKey::from_bytes`, which fails exactly on
/// bytes that are not a valid public key.
#[verifier::external_body]
fn ed25519_check_public_key(public: &[u8; 32]) -> (r: bool)
    ensures
        r == ed25519_public_key_valid(public@),
{
    VerifyingKey::from_bytes(public).is_ok()
}

/// Relies on ed25519-dalek's `VerifyingKey::verify`.
#[verifier::external_body]
fn ed25519_verify(public: &[u8; 32], msg: &[u8], sig: &[u8; 64]) -> (r: bool)
    requires
        ed25519_public_key_valid(public@),
    ensures
        r == ed25519_accepts(public@, msg@, sig@),
{
    match VerifyingKey::from_bytes(public) {
        Ok(key) => key.verify(msg, &Signature::from_bytes(sig)).is_ok(),
        Err(_) => false,
    }
}

/// Relies on ed25519-dalek's `SigningKey::generate` over the operating
/// system's random source.
#[verifier::external_body]
fn ed25519_random_seed() -> (r: [u8; 32]) {
    SigningKey::generate(&mut OsRng).to_bytes()
}

/// The encoded signature of `msg` under `seed`: its bytes in URL-safe,
/// unpadded base64.
pub open spec fn signature_tag(seed: Seq<u8>, msg: Seq<u8>) -> Seq<char> {
    base64_url_unpadded_of(ed25519_signature_of(seed, msg))
}

/// What a verifier holding `public` reports for `msg` and the encoded
/// candidate `candidate`: a decode error unless the candidate is base64 of
/// exactly 64 bytes, and otherwise whether those bytes are a valid signature.
pub open spec fn signature_check(
    public: Seq<u8>,
    msg: Seq<u8>,
    candidate: Seq<char>,
) -> Result<bool, TextError> {
    match base64_url_unpadded_decoded(candidate) {
        Some(bytes) => if bytes.len() == SIGNATURE_LEN {
            Ok(ed25519_accepts(public, msg, bytes))
        } else {
            Err(TextError::DecodeError)
        },
        None => Err(TextError::DecodeError),
    }
}

/// An Ed25519 signer holding a 32-byte seed.
pub struct Ed25519Signer {
    key: [u8; 32],
}

impl View for Ed25519Signer {
    type V = Seq<u8>;

    closed spec fn view(&self) -> Seq<u8> {
        self.key@
    }
}

impl Ed25519Signer {
    /// A signer over the 32-byte seed `key`.
    pub fn new(key: [u8; 32]) -> (r: Self)
        ensures
            r@ == key@,
    {
        Ed25519Signer { key }
    }

    /// Builds a signer from raw key material, keeping its first 32 bytes as the seed.
    pub fn try_new(key: &[u8]) -> (r: Result<Self, TextError>)
        ensures
            match r {
                Ok(s) => loaded_secret(key@) == Ok::<Seq<u8>, TextError>(s@),
                Err(e) => loaded_secret(key@) == Err::<Seq<u8>, TextError>(e),
            },
    {
        match load_secret(key) {
            Ok(k) => Ok(Ed25519Signer::new(k)),
            Err(e) => Err(e),
        }
    }
}

impl TextSign for Ed25519Signer {
    open spec fn signature_of(&self, data: Seq<u8>) -> Seq<char> {
        signature_tag(self@, data)
    }

    fn sign(&self, data: &[u8]) -> (r: Result<String, TextError>)
        ensures
            r matches Ok(s) && signature_check(ed25519_public_key_of(self@), data@, s@)
                == Ok::<bool, TextError>(true),
    {
        let sig = ed25519_sign(&self.key, data);
        Ok(encode_url_unpadded(&sig))
    }
}

/// What `Ed25519Verifier::try_new` yields for the raw key material `raw`: its
/// first 32 bytes, provided they are a valid public key.
pub open spec fn loaded_public_key(raw: Seq<u8>) -> Result<Seq<u8>, TextError> {
    match loaded_secret(raw) {
        Ok(k) => if ed25519_public_key_valid(k) {
            Ok(k)
        } else {
            Err(TextError::InvalidPublicKey)
        },
        Err(e) => Err(e),
    }
}

/// An Ed25519 verifier holding a valid 32-byte public key.
pub struct Ed25519Verifier {
    key: [u8; 32],
}

impl View for Ed25519Verifier {
    type V = Seq<u8>;

    closed spec fn view(&self) -> Seq<u8> {
        self.key@
    }
}

impl Ed25519Verifier {
    #[verifier::type_invariant]
    spec fn inv(&self) -> bool {
        ed25519_public_key_valid(self.key@)
    }

    /// A verifier over the valid 32-byte public key `key`.
    pub fn new(key: [u8; 32]) -> (r: Self)
        requires
            ed25519_public_key_valid(key@),
        ensures
            r@ == key@,
    {
        Ed25519Verifier { key }
    }

    /// Builds a verifier from raw key material, keeping its first 32 bytes as
    /// the public key.
    pub fn try_new(key: &[u8]) -> (r: Result<Self, TextError>)
        ensures
            match r {
                Ok(v) => loaded_public_key(key@) == Ok::<Seq<u8>, TextError>(v@),
                Err(e) => loaded_public_key(key@) == Err::<Seq<u8>, TextError>(e),
            },
    {
        match load_secret(key) {
            Ok(k) => if ed25519_check_public_key(&k) {
                Ok(Ed25519Verifier::new(k))
            } else {
                Err(TextError::InvalidPublicKey)
            },
            Err(e) => Err(e),
        }
    }
}

impl TextVerify for Ed25519Verifier {
    open spec fn verify_outcome(&self, data: Seq<u8>, sign: Seq<char>) -> Result<bool, TextError> {
        signature_check(self@, data, sign)
    }

    fn verify(&self, data: &[u8], sign: String) -> (r: Result<bool, TextError>) {
        proof {
            use_type_invariant(self);
        }
        match decode_url_unpadded(sign.as_str()) {
            Some(bytes) => if bytes.len() == SIGNATURE_LEN {
                let sig: [u8; 64] = prefix_array(bytes.as_slice());
                assert(sig@ =~= bytes@);
                Ok(ed25519_verify(&self.key, data, &sig))
            } else {
                Err(TextError::DecodeError)
            },
            None => Err(TextError::DecodeError),
        }
    }
}

impl KeyGenerator for Ed25519Signer {
    /// A seed followed by the public key that belongs to it.
    open spec fn well_formed_keys(keys: Seq<Seq<u8>>) -> bool {
        &&& keys.len() == 2
        &&& keys[0].len() == SECRET_KEY_LEN
        &&& keys[1] == ed25519_public_key_of(keys[0])
        &&& keys[1].len() == SECRET_KEY_LEN
        &&& ed25519_public_key_valid(keys[1])
    }

    fn generate() -> (r: Result<Vec<Vec<u8>>, TextError>) {
        let seed = ed25519_random_seed();
        let public = ed25519_public_key(&seed);
        let mut keys: Vec<Vec<u8>> = Vec::new();
        keys.push(copy_bytes(&seed));
        keys.push(copy_bytes(&public));
        Ok(keys)
    }
}

} // verus!
