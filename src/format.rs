use vstd::prelude::*;

use crate::error::TextError;

verus! {

/// Whether `a` and `b` hold the same characters.
pub(crate) fn str_eq(a: &str, b: &str) -> (r: bool)
    ensures
        r == (a@ == b@),
{
    a.to_owned() == b.to_owned()
}

/// The error for a format name that is not one of the known ones.
#[derive(Debug, Clone, Copy, PartialEq, Eq, Structural)]
pub struct UnknownFormat;

/// The algorithm behind a text sign, verify, encrypt or decrypt request.
#[derive(Debug, Clone, Copy, PartialEq, Eq, Structural)]
pub enum TextSignFormat {
    Blake3,
    ED25519,
    ChaCha20Poly1305,
}

impl TextSignFormat {
    /// The name by which the algorithm is selected.
    pub open spec fn name(self) -> Seq<char> {
        match self {
            TextSignFormat::Blake3 => "blake3"@,
            TextSignFormat::ED25519 => "ed25519"@,
            TextSignFormat::ChaCha20Poly1305 => "chacha20poly1305"@,
        }
    }

    /// The algorithm whose name is exactly `s`; any other name is an
    /// unsupported algorithm.
    pub fn parse(s: &str) -> (r: Result<Self, TextError>)
        ensures
            match r {
                Ok(f) => f.name() == s@,
                Err(e) => e == TextError::UnsupportedAlgorithm && forall|f: Self| f.name() != s@,
            },
    {
        if str_eq(s, "blake3") {
            Ok(TextSignFormat::Blake3)
        } else if str_eq(s, "ed25519") {
            Ok(TextSignFormat::ED25519)
        } else if str_eq(s, "chacha20poly1305") {
            Ok(TextSignFormat::ChaCha20Poly1305)
        } else {
            Err(TextError::UnsupportedAlgorithm)
        }
    }

    /// The name by which the format is selected, as text.
    pub fn as_str(&self) -> (r: &'static str)
        ensures
            r@ == self.name(),
    {
        match self {
            TextSignFormat::Blake3 => "blake3",
            TextSignFormat::ED25519 => "ed25519",
            TextSignFormat::ChaCha20Poly1305 => "chacha20poly1305",
        }
    }
}

impl std::str::FromStr for TextSignFormat {
    type Err = TextError;

    fn from_str(s: &str) -> Result<Self, TextError> {
        TextSignFormat::parse(s)
    }
}

/// The base64 alphabet used by the encode and decode commands.
#[derive(Debug, Clone, Copy, PartialEq, Eq, Structural)]
pub enum Base64Format {
    Standard,
    UrlSafe,
}

impl Base64Format {
    /// The name by which the format is selected.
    pub open spec fn name(self) -> Seq<char> {
        match self {
            Base64Format::Standard => "standard"@,
            Base64Format::UrlSafe => "url_safe"@,
        }
    }

    /// The format whose name is exactly `s`.
    pub fn parse(s: &str) -> (r: Result<Self, UnknownFormat>)
        ensures
            match r {
                Ok(f) => f.name() == s@,
                Err(_) => forall|f: Self| f.name() != s@,
            },
    {
        if str_eq(s, "standard") {
            Ok(Base64Format::Standard)
        } else if str_eq(s, "url_safe") {
            Ok(Base64Format::UrlSafe)
        } else {
            Err(UnknownFormat)
        }
    }

    /// The name by which the format is selected, as text.
    pub fn as_str(&self) -> (r: &'static str)
        ensures
            r@ == self.name(),
    {
        match self {
            Base64Format::Standard => "standard",
            Base64Format::UrlSafe => "url_safe",
        }
    }
}

impl std::str::FromStr for Base64Format {
    type Err = UnknownFormat;

    fn from_str(s: &str) -> Result<Self, UnknownFormat> {
        Base64Format::parse(s)
    }
}

/// The serialisation that a CSV file is converted to.
#[derive(Debug, Clone, Copy, PartialEq, Eq, Structural)]
pub enum OutputFormat {
    JSON,
    YAML,
    TOML,
}

impl OutputFormat {
    /// The name by which the format is selected.
    pub open spec fn name(self) -> Seq<char> {
        match self {
            OutputFormat::JSON => "json"@,
            OutputFormat::YAML => "yaml"@,
            OutputFormat::TOML => "toml"@,
        }
    }

    /// The format whose name is exactly `s`.
    pub fn parse(s: &str) -> (r: Result<Self, UnknownFormat>)
        ensures
            match r {
                Ok(f) => f.name() == s@,
                Err(_) => forall|f: Self| f.name() != s@,
            },
    {
        if str_eq(s, "json") {
            Ok(OutputFormat::JSON)
        } else if str_eq(s, "yaml") {
            Ok(OutputFormat::YAML)
        } else if str_eq(s, "toml") {
            Ok(OutputFormat::TOML)
        } else {
            Err(UnknownFormat)
        }
    }

    /// The name by which the format is selected, as text.
    pub fn as_str(&self) -> (r: &'static str)
        ensures
            r@ == self.name(),
    {
        match self {
            OutputFormat::JSON => "json",
            OutputFormat::YAML => "yaml",
            OutputFormat::TOML => "toml",
        }
    }
}

impl std::str::FromStr for OutputFormat {
    type Err = UnknownFormat;

    fn from_str(s: &str) -> Result<Self, UnknownFormat> {
        OutputFormat::parse(s)
    }
}

/// The algorithm that signs or verifies a JSON web token.
#[derive(Debug, Clone, Copy, PartialEq, Eq, Structural)]
pub enum JwtSignFormat {
    Ed25519,
    HS256,
    HS512,
}

impl JwtSignFormat {
    /// The name by which the format is selected.
    pub open spec fn name(self) -> Seq<char> {
        match self {
            JwtSignFormat::Ed25519 => "ed25519"@,
            JwtSignFormat::HS256 => "hs256"@,
            JwtSignFormat::HS512 => "hs512"@,
        }
    }

    /// The format whose name is exactly `s`.
    pub fn parse(s: &str) -> (r: Result<Self, UnknownFormat>)
        ensures
            match r {
                Ok(f) => f.name() == s@,
                Err(_) => forall|f: Self| f.name() != s@,
            },
    {
        if str_eq(s, "ed25519") {
            Ok(JwtSignFormat::Ed25519)
        } else if str_eq(s, "hs256") {
            Ok(JwtSignFormat::HS256)
        } else if str_eq(s, "hs512") {
            Ok(JwtSignFormat::HS512)
        } else {
            Err(UnknownFormat)
        }
    }

    /// The name by which the format is selected, as text.
    pub fn as_str(&self) -> (r: &'static str)
        ensures
            r@ == self.name(),
    {
        match self {
            JwtSignFormat::Ed25519 => "ed25519",
            JwtSignFormat::HS256 => "hs256",
            JwtSignFormat::HS512 => "hs512",
        }
    }
}

impl std::str::FromStr for JwtSignFormat {
    type Err = UnknownFormat;

    fn from_str(s: &str) -> Result<Self, UnknownFormat> {
        JwtSignFormat::parse(s)
    }
}

} // verus!
