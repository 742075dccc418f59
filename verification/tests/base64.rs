use rrcli::{decode_base64, encode_base64, Base64DecodeError, Base64FormatType};

#[test]
fn test_decode_base64_url_safe() {
    let input = "aGVsbG8gd29ybGQ";
    let format = Base64FormatType::UrlSafe;
    let result = decode_base64(input, format).unwrap();
    assert_eq!(result, "hello world");
}

#[test]
fn test_decode_base64_standard() {
    let input = "aGVsbG8gd29ybGQ=";
    let format = Base64FormatType::Standard;
    let result = decode_base64(input, format).unwrap();
    assert_eq!(result, "hello world");
}

#[test]
fn test_encode_base64_url_safe() {
    let input = "hello world";
    let format = Base64FormatType::UrlSafe;
    let result = encode_base64(input, format);
    assert_eq!(result, "aGVsbG8gd29ybGQ");
}

#[test]
fn test_encode_base64_standard() {
    let input = "hello world";
    let format = Base64FormatType::Standard;
    let result = encode_base64(input, format);
    assert_eq!(result, "aGVsbG8gd29ybGQ=");
}

#[test]
fn test_decode_url_safe_rejects_padding() {
    let result = decode_base64("aGVsbG8gd29ybGQ=", Base64FormatType::UrlSafe);
    assert_eq!(result, Err(Base64DecodeError::InvalidBase64));
}

#[test]
fn test_decode_standard_requires_padding() {
    let result = decode_base64("aGVsbG8gd29ybGQ", Base64FormatType::Standard);
    assert_eq!(result, Err(Base64DecodeError::InvalidBase64));
}

#[test]
fn test_decode_rejects_invalid_utf8() {
    // "_w" is the url-safe encoding of the single byte 0xff, which is not
    // valid utf-8 on its own.
    let result = decode_base64("_w", Base64FormatType::UrlSafe);
    assert_eq!(result, Err(Base64DecodeError::InvalidUtf8));
}

#[test]
fn test_encode_decode_round_trip() {
    let input = "round trips through either flavour, \u{00e9}\u{00e8}!";
    for format in [Base64FormatType::UrlSafe, Base64FormatType::Standard] {
        let encoded = encode_base64(input, format);
        assert_ne!(encoded, input);
        assert_eq!(decode_base64(&encoded, format).unwrap(), input);
    }
}
