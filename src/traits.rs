use vstd::prelude::*;

use crate::error::TextError;

verus! {

/// A holder of key material that produces an encoded signature over data.
pub trait TextSign {
    /// The encoded signature that `sign` produces over `data`.
    spec fn signature_of(&self, data: Seq<u8>) -> Seq<char>;

    fn sign(&self, data: &[u8]) -> (r: Result<String, TextError>)
        ensures
            r matches Ok(s) && s@ == self.signature_of(data@),
    ;
}

/// A holder of key material that checks an encoded signature over data.
pub trait TextVerify {
    /// What `verify` reports for `data` and the encoded candidate `sign`.
    spec fn verify_outcome(&self, data: Seq<u8>, sign: Seq<char>) -> Result<bool, TextError>;

    fn verify(&self, data: &[u8], sign: String) -> (r: Result<bool, TextError>)
        ensures
            r == self.verify_outcome(data@, sign@),
    ;
}

/// An algorithm that can produce fresh key material.
pub trait KeyGenerator {
    /// Whether `keys` has the number and shape of artifacts this algorithm needs.
    spec fn well_formed_keys(keys: Seq<Seq<u8>>) -> bool;

    fn generate() -> (r: Result<Vec<Vec<u8>>, TextError>)
        ensures
            r matches Ok(keys) && Self::well_formed_keys(keys@.map_values(|k: Vec<u8>| k@)),
    ;
}

} // verus!
