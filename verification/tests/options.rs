use rrcli::{
    parse_csv_format_value, parse_text_sign_format, verify_base64_format, Base64EncodeOptions,
    Base64FormatType, CsvFormatType, CsvOptions, GenPassOptions, HttpServeOption,
    TextGenerateOption, TextSignFormatType,
};

#[test]
fn test_parse_base64_format() {
    assert_eq!(verify_base64_format("urlsafe"), Some(Base64FormatType::UrlSafe));
    assert_eq!(verify_base64_format("standard"), Some(Base64FormatType::Standard));
    assert_eq!(verify_base64_format("url-safe"), None);
    assert_eq!(verify_base64_format(""), None);
    assert_eq!(Base64FormatType::UrlSafe.name(), "urlsafe");
    assert_eq!(Base64FormatType::Standard.name(), "standard");
}

#[test]
fn test_parse_csv_format() {
    assert_eq!(parse_csv_format_value("json"), Some(CsvFormatType::Json));
    assert_eq!(parse_csv_format_value("yaml"), Some(CsvFormatType::Yaml));
    assert_eq!(parse_csv_format_value("toml"), Some(CsvFormatType::Toml));
    assert_eq!(parse_csv_format_value("csv"), None);
    assert_eq!(CsvFormatType::Json.name(), "json");
    assert_eq!(CsvFormatType::Yaml.name(), "yaml");
    assert_eq!(CsvFormatType::Toml.name(), "toml");
}

#[test]
fn test_parse_text_sign_format() {
    assert_eq!(parse_text_sign_format("blake3"), Some(TextSignFormatType::Blake3));
    assert_eq!(parse_text_sign_format("ed25519"), Some(TextSignFormatType::Ed25519));
    assert_eq!(parse_text_sign_format("ed448"), None);
    assert_eq!(TextSignFormatType::Blake3.name(), "blake3");
    assert_eq!(TextSignFormatType::Ed25519.name(), "ed25519");
}

#[test]
fn test_option_defaults() {
    let encode = Base64EncodeOptions::default();
    assert_eq!(encode.input, "-");
    assert_eq!(encode.format, Base64FormatType::UrlSafe);

    let gen_pass = GenPassOptions::default();
    assert_eq!(gen_pass.length, 16);
    assert!(!gen_pass.no_numbers && !gen_pass.no_symbols);
    assert!(!gen_pass.no_uppercase && !gen_pass.no_lowercase);

    let serve = HttpServeOption::default();
    assert_eq!(serve.root, ".");
    assert_eq!(serve.port, 8080);
}

#[test]
fn test_csv_output_path() {
    let explicit = CsvOptions {
        input: "in.csv".to_string(),
        output: Some("somewhere.json".to_string()),
        format: CsvFormatType::Json,
    };
    assert_eq!(explicit.output_path(), "somewhere.json");

    let defaulted = CsvOptions { input: "in.csv".to_string(), output: None, format: CsvFormatType::Yaml };
    assert_eq!(defaulted.output_path(), "output.yaml");
}

#[test]
fn test_generate_artifact_names() {
    let blake3 = TextGenerateOption { format: TextSignFormatType::Blake3, output: ".".to_string() };
    assert_eq!(blake3.artifact_names(), vec!["blake3.txt"]);

    let ed25519 = TextGenerateOption {
        format: TextSignFormatType::Ed25519,
        output: ".".to_string(),
    };
    assert_eq!(ed25519.artifact_names(), vec!["ed25519.sk", "ed25519.pk"]);
}
