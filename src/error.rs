use vstd::prelude::*;

verus! {

/// Every failure that the text operations can report.
#[derive(Debug, Clone, Copy, PartialEq, Eq, Structural)]
pub enum TextError {
    /// Key material was shorter than the required minimum length.
    KeyTooShort { min_len: usize },
    /// A cipher key was longer than the exact length the cipher takes.
    InvalidKeyLength { expected: usize },
    /// The algorithm name is not one of the supported ones, or it does not
    /// offer the requested operation.
    UnsupportedAlgorithm,
    /// A signature candidate is not URL-safe base64, or not a well-formed signature.
    DecodeError,
    /// An encrypted frame is shorter than its nonce.
    CiphertextTooShort,
    /// The authentication tag of an encrypted frame did not validate.
    AeadAuthenticationFailure,
    /// The supplied bytes are not a valid Ed25519 public key.
    InvalidPublicKey,
}

impl TextError {
    /// A human-readable description of the error.
    pub fn message(&self) -> (r: &'static str) {
        match self {
            TextError::KeyTooShort { .. } => "key material must be at least 32 bytes long",
            TextError::InvalidKeyLength { .. } => "cipher key must be exactly 32 bytes long",
            TextError::UnsupportedAlgorithm => "unsupported algorithm",
            TextError::DecodeError => {
                "signature is not valid url-safe base64 or not a valid signature"
            },
            TextError::CiphertextTooShort => "invalid ciphertext: too short",
            TextError::AeadAuthenticationFailure => "decryption failed: wrong key or tampered data",
            TextError::InvalidPublicKey => "invalid public key",
        }
    }
}

} // verus!
