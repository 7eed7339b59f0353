use vstd::prelude::*;

use crate::bytes::copy_bytes;
use crate::encoding::{base64_url_unpadded_of, encode_url_unpadded};
use crate::error::TextError;
use crate::keys::{load_secret, loaded_secret, SECRET_KEY_LEN};
use crate::traits::{KeyGenerator, TextSign, TextVerify};

verus! {

/// The 32-byte BLAKE3 keyed hash of `data` under `key`.
pub uninterp spec fn blake3_keyed_hash_of(key: Seq<u8>, data: Seq<u8>) -> Seq<u8>;

/// Relies on `blake3::keyed_hash`, the keyed BLAKE3 hash of `data`.
#[verifier::external_body]
fn keyed_hash(key: &[u8; 32], data: &[u8]) -> (r: [u8; 32])
    ensures
        r@ == blake3_keyed_hash_of(key@, data@),
{
    *blake3::keyed_hash(key, data).as_bytes()
}

/// Relies on `rand::random`, drawn from the thread-local cryptographically
/// secure generator.
#[verifier::external_body]
fn random_secret() -> (r: [u8; 32]) {
    rand::random::<[u8; 32]>()
}

/// The MAC tag of `data` under `key`: its keyed hash in URL-safe, unpadded base64.
pub open spec fn mac_tag(key: Seq<u8>, data: Seq<u8>) -> Seq<char> {
    base64_url_unpadded_of(blake3_keyed_hash_of(key, data))
}

/// A keyed-hash MAC signer and verifier over a 32-byte secret.
pub struct Blake3 {
    key: [u8; 32],
}

impl View for Blake3 {
    type V = Seq<u8>;

    closed spec fn view(&self) -> Seq<u8> {
        self.key@
    }
}

impl Blake3 {
    /// A MAC over the 32-byte secret `key`.
    pub fn new(key: [u8; 32]) -> (r: Self)
        ensures
            r@ == key@,
    {
        Blake3 { key }
    }

    /// Builds a MAC from raw key material, keeping its first 32 bytes.
    pub fn try_new(key: &[u8]) -> (r: Result<Self, TextError>)
        ensures
            match r {
                Ok(m) => loaded_secret(key@) == Ok::<Seq<u8>, TextError>(m@),
                Err(e) => loaded_secret(key@) == Err::<Seq<u8>, TextError>(e),
            },
    {
        match load_secret(key) {
            Ok(k) => Ok(Blake3::new(k)),
            Err(e) => Err(e),
        }
    }
}

impl TextSign for Blake3 {
    open spec fn signature_of(&self, data: Seq<u8>) -> Seq<char> {
        mac_tag(self@, data)
    }

    fn sign(&self, data: &[u8]) -> (r: Result<String, TextError>) {
        let hash = keyed_hash(&self.key, data);
        Ok(encode_url_unpadded(&hash))
    }
}

impl TextVerify for Blake3 {
    open spec fn verify_outcome(&self, data: Seq<u8>, sign: Seq<char>) -> Result<bool, TextError> {
        Ok(sign == mac_tag(self@, data))
    }

    fn verify(&self, data: &[u8], sign: String) -> (r: Result<bool, TextError>) {
        match self.sign(data) {
            Ok(expected) => Ok(expected == sign),
            Err(e) => Err(e),
        }
    }
}

impl KeyGenerator for Blake3 {
    open spec fn well_formed_keys(keys: Seq<Seq<u8>>) -> bool {
        keys.len() == 1 && keys[0].len() == SECRET_KEY_LEN
    }

    fn generate() -> (r: Result<Vec<Vec<u8>>, TextError>) {
        let key = random_secret();
        let mut keys: Vec<Vec<u8>> = Vec::new();
        keys.push(copy_bytes(&key));
        Ok(keys)
    }
}

/// A tag is accepted by a verifier holding the key that made it.
pub proof fn lemma_mac_tag_accepted(mac: Blake3, data: Seq<u8>)
    ensures
        mac.verify_outcome(data, mac.signature_of(data)) == Ok::<bool, TextError>(true),
{
}

} // verus!
