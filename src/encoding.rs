use vstd::prelude::*;

use crate::format::Base64Format;

use base64::engine::general_purpose::{STANDARD, URL_SAFE, URL_SAFE_NO_PAD};
use base64::Engine;

verus! {

/// The URL-safe, unpadded base64 text of `bytes`.
pub uninterp spec fn base64_url_unpadded_of(bytes: Seq<u8>) -> Seq<char>;

/// The bytes that the URL-safe, unpadded base64 text `text` stands for, if it
/// is well-formed.
pub uninterp spec fn base64_url_unpadded_decoded(text: Seq<char>) -> Option<Seq<u8>>;

/// Relies on base64's `URL_SAFE_NO_PAD.encode`, whose output decodes back to
/// its input.
#[verifier::external_body]
pub(crate) fn encode_url_unpadded(bytes: &[u8]) -> (r: String)
    ensures
        r@ == base64_url_unpadded_of(bytes@),
        base64_url_unpadded_decoded(r@) == Some(bytes@),
{
    URL_SAFE_NO_PAD.encode(bytes)
}

/// Relies on base64's `URL_SAFE_NO_PAD.decode`; its error becomes `None`.
#[verifier::external_body]
pub(crate) fn decode_url_unpadded(text: &str) -> (r: Option<Vec<u8>>)
    ensures
        match r {
            Some(v) => base64_url_unpadded_decoded(text@) == Some(v@),
            None => base64_url_unpadded_decoded(text@) is None,
        },
{
    URL_SAFE_NO_PAD.decode(text).ok()
}

/// The standard, padded base64 text of `bytes`.
pub uninterp spec fn base64_standard_of(bytes: Seq<u8>) -> Seq<char>;

/// The bytes that the standard, padded base64 text `text` stands for, if it is
/// well-formed.
pub uninterp spec fn base64_standard_decoded(text: Seq<char>) -> Option<Seq<u8>>;

/// The URL-safe, padded base64 text of `bytes`.
pub uninterp spec fn base64_url_of(bytes: Seq<u8>) -> Seq<char>;

/// The bytes that the URL-safe, padded base64 text `text` stands for, if it is
/// well-formed.
pub uninterp spec fn base64_url_decoded(text: Seq<char>) -> Option<Seq<u8>>;

/// Relies on base64's `STANDARD.encode`, whose output decodes back to its input.
#[verifier::external_body]
fn encode_standard(bytes: &[u8]) -> (r: String)
    ensures
        r@ == base64_standard_of(bytes@),
        base64_standard_decoded(r@) == Some(bytes@),
{
    STANDARD.encode(bytes)
}

/// Relies on base64's `STANDARD.decode`; its error becomes `None`.
#[verifier::external_body]
fn decode_standard(text: &str) -> (r: Option<Vec<u8>>)
    ensures
        match r {
            Some(v) => base64_standard_decoded(text@) == Some(v@),
            None => base64_standard_decoded(text@) is None,
        },
{
    STANDARD.decode(text).ok()
}

/// Relies on base64's `URL_SAFE.encode`, whose output decodes back to its input.
#[verifier::external_body]
fn encode_url(bytes: &[u8]) -> (r: String)
    ensures
        r@ == base64_url_of(bytes@),
        base64_url_decoded(r@) == Some(bytes@),
{
    URL_SAFE.encode(bytes)
}

/// Relies on base64's `URL_SAFE.decode`; its error becomes `None`.
#[verifier::external_body]
fn decode_url(text: &str) -> (r: Option<Vec<u8>>)
    ensures
        match r {
            Some(v) => base64_url_decoded(text@) == Some(v@),
            None => base64_url_decoded(text@) is None,
        },
{
    URL_SAFE.decode(text).ok()
}

/// The base64 text of `bytes` in the alphabet `format`.
pub open spec fn base64_encoded(bytes: Seq<u8>, format: Base64Format) -> Seq<char> {
    match format {
        Base64Format::Standard => base64_standard_of(bytes),
        Base64Format::UrlSafe => base64_url_of(bytes),
    }
}

/// The bytes that `text` stands for in the alphabet `format`, if it is well-formed.
pub open spec fn base64_decoded(text: Seq<char>, format: Base64Format) -> Option<Seq<u8>> {
    match format {
        Base64Format::Standard => base64_standard_decoded(text),
        Base64Format::UrlSafe => base64_url_decoded(text),
    }
}

/// Input that is not well-formed base64.
#[derive(Debug, Clone, Copy, PartialEq, Eq, Structural)]
pub struct InvalidBase64;

/// Encodes `data` as padded base64 in the alphabet `format`; decoding the
/// result in the same alphabet gives `data` back.
pub fn process_base64_encode(data: &[u8], format: Base64Format) -> (r: String)
    ensures
        r@ == base64_encoded(data@, format),
        base64_decoded(r@, format) == Some(data@),
{
    match format {
        Base64Format::Standard => encode_standard(data),
        Base64Format::UrlSafe => encode_url(data),
    }
}

/// Decodes the padded base64 text `input` in the alphabet `format`.
pub fn process_base64_decode(
    input: &str,
    format: Base64Format,
) -> (r: Result<Vec<u8>, InvalidBase64>)
    ensures
        match r {
            Ok(v) => base64_decoded(input@, format) == Some(v@),
            Err(_) => base64_decoded(input@, format) is None,
        },
{
    let decoded = match format {
        Base64Format::Standard => decode_standard(input),
        Base64Format::UrlSafe => decode_url(input),
    };
    match decoded {
        Some(v) => Ok(v),
        None => Err(InvalidBase64),
    }
}

} // verus!
