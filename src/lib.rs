//! Text integrity and confidentiality: keyed-hash MACs, Ed25519 signatures and
//! ChaCha20-Poly1305 encryption over in-memory byte buffers, with the key
//! loading and key generation that feed them.

use vstd::prelude::*;

mod bytes;
pub mod cipher;
pub mod cli;
pub mod encoding;
pub mod error;
pub mod format;
pub mod keys;
pub mod mac;
pub mod password;
pub mod signature;
pub mod text;
pub mod traits;

pub use cipher::{decrypt, encrypt};
pub use cli::{
    check_input_file, key_file_names, verify_file, verify_input_file, verify_path, Base64Command,
    CsvOpts, DecodeOpts, DecryptOpts, EncodeOpts, EncryptOpts, GenPassOpts, GenerateOpts,
    HttpCommand, JwtVerifyOpts, LangTrend, ServeOpts, SignTextOpts, TextCommand, VerifyTextOpts,
};
pub use encoding::{process_base64_decode, process_base64_encode, InvalidBase64};
pub use error::TextError;
pub use format::{Base64Format, JwtSignFormat, OutputFormat, TextSignFormat, UnknownFormat};
pub use keys::{load_secret, SECRET_KEY_LEN};
pub use mac::Blake3;
pub use password::{process_gen_pass, strength_label};
pub use signature::{Ed25519Signer, Ed25519Verifier};
pub use text::{
    process_key_generate, process_text_decrypt, process_text_encrypt, process_text_sign,
    process_text_verify,
};
pub use traits::{KeyGenerator, TextSign, TextVerify};

verus! {

} // verus!
