use rcli::{
    check_input_file, process_base64_decode, process_base64_encode, process_gen_pass,
    strength_label, verify_file, Base64Format, CsvOpts, InvalidBase64, JwtSignFormat,
    OutputFormat, TextError, TextSignFormat, UnknownFormat,
};

#[test]
fn test_verify_input_file() {
    assert_eq!(verify_file("-"), Ok("-".into()));
    // The package manifest is not beside the tests in every layout they run
    // in; a source file of the crate is.
    assert_eq!(verify_file("src/lib.rs"), Ok("src/lib.rs".into()));
    assert_eq!(verify_file("File not exist"), Err("Input file not exist"));
}

#[test]
fn check_input_file_decides_on_existence() {
    assert_eq!(check_input_file("-", false), Ok("-".to_string()));
    assert_eq!(check_input_file("a.txt", true), Ok("a.txt".to_string()));
    assert_eq!(check_input_file("a.txt", false), Err("Input file not exist"));
}

#[test]
fn text_sign_format_names() {
    assert_eq!("blake3".parse::<TextSignFormat>(), Ok(TextSignFormat::Blake3));
    assert_eq!("ed25519".parse::<TextSignFormat>(), Ok(TextSignFormat::ED25519));
    assert_eq!(
        "chacha20poly1305".parse::<TextSignFormat>(),
        Ok(TextSignFormat::ChaCha20Poly1305)
    );
    assert_eq!("Blake3".parse::<TextSignFormat>(), Err(TextError::UnsupportedAlgorithm));
    assert_eq!("rsa".parse::<TextSignFormat>(), Err(TextError::UnsupportedAlgorithm));
    for f in [TextSignFormat::Blake3, TextSignFormat::ED25519, TextSignFormat::ChaCha20Poly1305] {
        assert_eq!(TextSignFormat::parse(f.as_str()), Ok(f));
    }
}

#[test]
fn other_format_names() {
    assert_eq!(Base64Format::parse("standard"), Ok(Base64Format::Standard));
    assert_eq!(Base64Format::parse("url_safe"), Ok(Base64Format::UrlSafe));
    assert_eq!(Base64Format::parse("url-safe"), Err(UnknownFormat));
    assert_eq!(OutputFormat::parse("json"), Ok(OutputFormat::JSON));
    assert_eq!(OutputFormat::parse("yaml"), Ok(OutputFormat::YAML));
    assert_eq!(OutputFormat::parse("toml"), Ok(OutputFormat::TOML));
    assert_eq!(OutputFormat::parse("xml"), Err(UnknownFormat));
    assert_eq!(JwtSignFormat::parse("ed25519"), Ok(JwtSignFormat::Ed25519));
    assert_eq!(JwtSignFormat::parse("hs256"), Ok(JwtSignFormat::HS256));
    assert_eq!(JwtSignFormat::parse("hs512"), Ok(JwtSignFormat::HS512));
    assert_eq!(JwtSignFormat::parse("HS256"), Err(UnknownFormat));
    assert_eq!(OutputFormat::TOML.as_str(), "toml");
    assert_eq!(Base64Format::UrlSafe.as_str(), "url_safe");
    assert_eq!(JwtSignFormat::HS512.as_str(), "hs512");
}

#[test]
fn csv_output_path() {
    let mut opts = CsvOpts {
        input: "in.csv".to_string(),
        output: None,
        format: OutputFormat::YAML,
        delimiter: ',',
    };
    assert_eq!(opts.get_output_path(), "output.yaml");
    opts.format = OutputFormat::JSON;
    assert_eq!(opts.get_output_path(), "output.json");
    opts.format = OutputFormat::TOML;
    assert_eq!(opts.get_output_path(), "output.toml");
    opts.output = Some("out.txt".to_string());
    assert_eq!(opts.get_output_path(), "out.txt");
}

#[test]
fn process_base64_encode_decode() {
    let buf = b"[package]\nname = \"rcli\"\n\x00\xff\xfe".to_vec();
    let base64_content = process_base64_encode(&buf, Base64Format::Standard);
    assert_eq!(buf, process_base64_decode(&base64_content, Base64Format::Standard).unwrap());
    let url = process_base64_encode(&buf, Base64Format::UrlSafe);
    assert_eq!(buf, process_base64_decode(&url, Base64Format::UrlSafe).unwrap());
}

#[test]
fn base64_known_answers() {
    assert_eq!(
        process_base64_encode(b"Hello, world!", Base64Format::Standard),
        "SGVsbG8sIHdvcmxkIQ=="
    );
    assert_eq!(process_base64_encode(&[251, 255, 191], Base64Format::Standard), "+/+/");
    assert_eq!(process_base64_encode(&[251, 255, 191], Base64Format::UrlSafe), "-_-_");
    assert_eq!(
        process_base64_decode("SGVsbG8sIHdvcmxkIQ==", Base64Format::Standard),
        Ok(b"Hello, world!".to_vec())
    );
    assert_eq!(process_base64_decode("-_-_", Base64Format::Standard), Err(InvalidBase64));
    assert_eq!(process_base64_decode("+/+/", Base64Format::UrlSafe), Err(InvalidBase64));
    assert_eq!(process_base64_decode("", Base64Format::Standard), Ok(Vec::new()));
}

#[test]
fn generated_password_shape() {
    let p = process_gen_pass(16, true, true, true, true).unwrap();
    assert_eq!(p.len(), 16);
    assert!(p.bytes().all(|c| c.is_ascii_alphanumeric() || b"!@#$%^&*".contains(&c)));
    let digits = process_gen_pass(8, true, false, false, false).unwrap();
    assert_eq!(digits.len(), 8);
    assert!(digits.bytes().all(|c| c.is_ascii_digit()));
    let letters = process_gen_pass(2, false, true, true, false).unwrap();
    assert_eq!(letters.len(), 2);
    assert!(letters.bytes().all(|c| c.is_ascii_alphabetic()));
    let symbols = process_gen_pass(40, false, false, false, true).unwrap();
    assert!(symbols.bytes().all(|c| b"!@#$%^&*".contains(&c)));
    assert_eq!(process_gen_pass(4, true, true, true, true).unwrap().len(), 4);
}

#[test]
fn strength_labels() {
    assert_eq!(strength_label(0), "Weak password");
    assert_eq!(strength_label(2), "Weak password");
    assert_eq!(strength_label(3), "Medium password");
    assert_eq!(strength_label(4), "Strong password");
}

#[test]
fn error_messages() {
    assert_eq!(TextError::CiphertextTooShort.message(), "invalid ciphertext: too short");
    assert_ne!(TextError::KeyTooShort { min_len: 32 }.message(), TextError::DecodeError.message());
}
