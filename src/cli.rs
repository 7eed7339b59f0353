use vstd::prelude::*;

use std::path::{Path, PathBuf};

use crate::format::{Base64Format, JwtSignFormat, OutputFormat, TextSignFormat};

verus! {

#[verifier::external_type_specification]
#[verifier::external_body]
pub struct ExPathBuf(PathBuf);

/// Relies on `std::path::Path::exists`; the answer depends on the file system,
/// so nothing is promised of it.
#[verifier::external_body]
fn path_exists(path: &str) -> (r: bool) {
    Path::new(path).exists()
}

/// Relies on `std::path::Path::is_dir`; the answer depends on the file
/// system, so nothing is promised of it.
#[verifier::external_body]
fn path_is_dir(path: &str) -> (r: bool) {
    Path::new(path).is_dir()
}

/// Relies on `PathBuf::from`, which only changes the type of `path`.
#[verifier::external_body]
fn path_buf(path: &str) -> (r: PathBuf) {
    PathBuf::from(path)
}

/// The message with which a missing input file is refused.
pub const MISSING_INPUT: &'static str = "Input file not exist";

/// Accepts `filename` when it names standard input (`-`) or when `exists`
/// says that a file of that name is present.
pub fn check_input_file(filename: &str, exists: bool) -> (r: Result<String, &'static str>)
    ensures
        filename@ == "-"@ || exists ==> (r matches Ok(s) && s@ == filename@),
        !(filename@ == "-"@ || exists) ==> (r matches Err(m) && m@ == MISSING_INPUT@),
{
    if crate::format::str_eq(filename, "-") || exists {
        Ok(filename.to_owned())
    } else {
        Err(MISSING_INPUT)
    }
}

/// Accepts `-` for standard input, or the name of a path that exists.
pub fn verify_file(filename: &str) -> (r: Result<String, &'static str>)
    ensures
        filename@ == "-"@ ==> (r matches Ok(s) && s@ == filename@),
        r matches Ok(s) ==> s@ == filename@,
        r matches Err(m) ==> m@ == MISSING_INPUT@ && filename@ != "-"@,
{
    if crate::format::str_eq(filename, "-") {
        check_input_file(filename, false)
    } else {
        check_input_file(filename, path_exists(filename))
    }
}

/// The message with which a missing CSV input file is refused.
pub const MISSING_CSV_INPUT: &'static str = "Input file not exist!";

/// Accepts the name of a path that exists; standard input is not accepted.
pub fn verify_input_file(filename: &str) -> (r: Result<String, &'static str>)
    ensures
        r matches Ok(s) ==> s@ == filename@,
        r matches Err(m) ==> m@ == MISSING_CSV_INPUT@,
{
    if path_exists(filename) {
        Ok(filename.to_owned())
    } else {
        Err(MISSING_CSV_INPUT)
    }
}

/// Accepts the name of an existing directory.
pub fn verify_path(path: &str) -> (r: Result<PathBuf, &'static str>)
    ensures
        r matches Err(m) ==> m@ == MISSING_INPUT@,
{
    if path_exists(path) && path_is_dir(path) {
        Ok(path_buf(path))
    } else {
        Err(MISSING_INPUT)
    }
}

/// The names of the files that the artifacts of `format`, in the order
/// `process_key_generate` returns them, are written to.
pub open spec fn key_file_names_of(format: TextSignFormat) -> Seq<Seq<char>> {
    match format {
        TextSignFormat::Blake3 => seq!["blake3.txt"@],
        TextSignFormat::ED25519 => seq!["ed25519.sk"@, "ed25519.pk"@],
        TextSignFormat::ChaCha20Poly1305 => seq!["chacha20poly1305.txt"@],
    }
}

/// The names of the files that the generated key material of `format` is
/// written to, one for each artifact.
pub fn key_file_names(format: TextSignFormat) -> (r: Vec<&'static str>)
    ensures
        r@.len() == key_file_names_of(format).len(),
        forall|i: int| 0 <= i < r@.len() ==> (#[trigger] r@[i])@ == key_file_names_of(format)[i],
{
    let mut names: Vec<&'static str> = Vec::new();
    match format {
        TextSignFormat::Blake3 => names.push("blake3.txt"),
        TextSignFormat::ED25519 => {
            names.push("ed25519.sk");
            names.push("ed25519.pk");
        },
        TextSignFormat::ChaCha20Poly1305 => names.push("chacha20poly1305.txt"),
    }
    names
}

/// Options of the command that signs text.
pub struct SignTextOpts {
    pub input: String,
    pub key: String,
    pub format: TextSignFormat,
}

/// Options of the command that verifies a signature over text.
pub struct VerifyTextOpts {
    pub input: String,
    pub key: String,
    pub sign: String,
    pub format: TextSignFormat,
}

/// Options of the command that generates key material into a directory.
pub struct GenerateOpts {
    pub format: TextSignFormat,
    pub output: PathBuf,
}

/// Options of the command that encrypts text into a file.
pub struct EncryptOpts {
    pub input: String,
    pub output: String,
    pub key: String,
}

/// Options of the command that decrypts an encrypted file.
pub struct DecryptOpts {
    pub input: String,
    pub key: String,
}

/// The text subcommands.
pub enum TextCommand {
    Sign(SignTextOpts),
    Verify(VerifyTextOpts),
    Generate(GenerateOpts),
    Encrypt(EncryptOpts),
    Decrypt(DecryptOpts),
}

/// Options of the command that decodes base64.
pub struct DecodeOpts {
    pub input: String,
    pub format: Base64Format,
}

/// Options of the command that encodes to base64.
pub struct EncodeOpts {
    pub input: String,
    pub format: Base64Format,
}

/// The base64 subcommands.
pub enum Base64Command {
    Decode(DecodeOpts),
    Encode(EncodeOpts),
}

/// Options of the command that generates a password.
pub struct GenPassOpts {
    pub length: usize,
    pub number: bool,
    pub lower: bool,
    pub upper: bool,
    pub symbol: bool,
}

/// Options of the command that serves a directory over HTTP.
pub struct ServeOpts {
    pub path: PathBuf,
    pub port: u16,
}

/// The HTTP subcommands.
pub enum HttpCommand {
    Serve(ServeOpts),
}

/// Options of the command that verifies a JSON web token.
pub struct JwtVerifyOpts {
    pub format: JwtSignFormat,
    pub key: String,
    pub token: String,
}

/// One record of a programming-language trend table.
pub struct LangTrend {
    pub name: String,
    pub kind: String,
    pub birthday: String,
    pub trending: String,
}

/// Options of the command that converts a CSV file.
pub struct CsvOpts {
    pub input: String,
    pub output: Option<String>,
    pub format: OutputFormat,
    pub delimiter: char,
}

/// The file that a conversion to `format` is written to when no output is named.
pub open spec fn default_output_path(format: OutputFormat) -> Seq<char> {
    match format {
        OutputFormat::JSON => "output.json"@,
        OutputFormat::YAML => "output.yaml"@,
        OutputFormat::TOML => "output.toml"@,
    }
}

impl CsvOpts {
    /// The named output file, or `output.<format>` when none is named.
    pub fn get_output_path(&self) -> (r: String)
        ensures
            r@ == match self.output {
                Some(path) => path@,
                None => default_output_path(self.format),
            },
    {
        match &self.output {
            Some(path) => path.clone(),
            None => match self.format {
                OutputFormat::JSON => "output.json".to_owned(),
                OutputFormat::YAML => "output.yaml".to_owned(),
                OutputFormat::TOML => "output.toml".to_owned(),
            },
        }
    }
}

} // verus!
