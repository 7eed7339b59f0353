use vstd::prelude::*;

use crate::bytes::prefix_array;
use crate::error::TextError;

verus! {

/// Length in bytes of every symmetric secret and of an Ed25519 seed.
pub const SECRET_KEY_LEN: usize = 32;

/// What `load_secret` yields for the raw key material `raw`.
pub open spec fn loaded_secret(raw: Seq<u8>) -> Result<Seq<u8>, TextError> {
    if raw.len() < SECRET_KEY_LEN {
        Err(TextError::KeyTooShort { min_len: SECRET_KEY_LEN })
    } else {
        Ok(raw.subrange(0, SECRET_KEY_LEN as int))
    }
}

/// Validates raw key material and keeps its first 32 bytes as the secret.
///
/// Material shorter than 32 bytes is refused; anything past the first 32
/// bytes is discarded.
pub fn load_secret(raw: &[u8]) -> (r: Result<[u8; 32], TextError>)
    ensures
        match r {
            Ok(k) => loaded_secret(raw@) == Ok::<Seq<u8>, TextError>(k@),
            Err(e) => loaded_secret(raw@) == Err::<Seq<u8>, TextError>(e),
        },
{
    if raw.len() < SECRET_KEY_LEN {
        return Err(TextError::KeyTooShort { min_len: SECRET_KEY_LEN });
    }
    Ok(prefix_array(raw))
}

/// Key material of 31 bytes is too short; material of exactly 32 bytes is
/// taken whole.
pub proof fn lemma_secret_length_boundary(raw: Seq<u8>)
    ensures
        raw.len() == 31 ==> loaded_secret(raw) == Err::<Seq<u8>, TextError>(
            TextError::KeyTooShort { min_len: SECRET_KEY_LEN },
        ),
        raw.len() == 32 ==> loaded_secret(raw) == Ok::<Seq<u8>, TextError>(raw),
{
    if raw.len() == 32 {
        assert(raw.subrange(0, 32) =~= raw);
    }
}

} // verus!
