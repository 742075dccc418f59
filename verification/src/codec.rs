//! Text transport for binary data: base64 in its url-safe unpadded form (used
//! for signatures) and in its standard padded form, plus the utf-8 step that
//! turns decoded bytes back into text.

use vstd::prelude::*;
use vstd::utf8::{decode_utf8, valid_utf8};

verus! {

/// The text that base64's url-safe unpadded engine produces for the given bytes.
pub uninterp spec fn base64_url_encoding(bytes: Seq<u8>) -> Seq<char>;

/// What base64's url-safe unpadded engine makes of the given text: the encoded
/// bytes when the text is a canonical encoding, nothing otherwise.
pub uninterp spec fn base64_url_decoding(text: Seq<char>) -> Option<Seq<u8>>;

/// The text that base64's standard padded engine produces for the given bytes.
pub uninterp spec fn base64_std_encoding(bytes: Seq<u8>) -> Seq<char>;

/// What base64's standard padded engine makes of the given text.
pub uninterp spec fn base64_std_decoding(text: Seq<char>) -> Option<Seq<u8>>;

/// Relies on base64's `URL_SAFE_NO_PAD` engine: encoding is a function of the
/// input bytes alone, four characters for every three bytes without padding,
/// and decoding an encoded text recovers exactly the input.
#[verifier::external_body]
pub(crate) fn base64_url_encode(bytes: &[u8]) -> (r: String)
    ensures
        r@ == base64_url_encoding(bytes@),
        r@.len() == (bytes@.len() * 4 + 2) / 3,
        base64_url_decoding(r@) == Some(bytes@),
{
    base64::Engine::encode(&base64::engine::general_purpose::URL_SAFE_NO_PAD, bytes)
}

/// Relies on base64's `URL_SAFE_NO_PAD` engine: decoding succeeds exactly on
/// canonical unpadded encodings, and its verdict depends on the text alone.
#[verifier::external_body]
pub(crate) fn base64_url_decode(text: &str) -> (r: Option<Vec<u8>>)
    ensures
        match r {
            Some(v) => base64_url_decoding(text@) == Some(v@),
            None => base64_url_decoding(text@) is None,
        },
{
    base64::Engine::decode(&base64::engine::general_purpose::URL_SAFE_NO_PAD, text).ok()
}

/// Relies on base64's `STANDARD` engine: encoding is a function of the input
/// bytes alone, four characters for every three bytes with `=` padding to a
/// multiple of four, and decoding an encoded text recovers exactly the input.
#[verifier::external_body]
pub(crate) fn base64_std_encode(bytes: &[u8]) -> (r: String)
    ensures
        r@ == base64_std_encoding(bytes@),
        r@.len() == 4 * ((bytes@.len() + 2) / 3),
        base64_std_decoding(r@) == Some(bytes@),
{
    base64::Engine::encode(&base64::engine::general_purpose::STANDARD, bytes)
}

/// Relies on base64's `STANDARD` engine: decoding succeeds exactly on
/// canonically padded encodings, and its verdict depends on the text alone.
#[verifier::external_body]
pub(crate) fn base64_std_decode(text: &str) -> (r: Option<Vec<u8>>)
    ensures
        match r {
            Some(v) => base64_std_decoding(text@) == Some(v@),
            None => base64_std_decoding(text@) is None,
        },
{
    base64::Engine::decode(&base64::engine::general_purpose::STANDARD, text).ok()
}

/// Relies on `String::from_utf8`: it succeeds exactly on valid utf-8 and
/// returns the decoded characters.
#[verifier::external_body]
pub(crate) fn bytes_to_string(bytes: Vec<u8>) -> (r: Option<String>)
    ensures
        match r {
            Some(s) => valid_utf8(bytes@) && s@ == decode_utf8(bytes@),
            None => !valid_utf8(bytes@),
        },
{
    String::from_utf8(bytes).ok()
}

/// Compare two byte strings for equality.
pub(crate) fn bytes_equal(a: &[u8], b: &[u8]) -> (r: bool)
    ensures
        r == (a@ == b@),
{
    if a.len() != b.len() {
        assert(a@ != b@);
        return false;
    }
    let n = a.len();
    let mut i: usize = 0;
    while i < n
        invariant
            n == a@.len() == b@.len(),
            0 <= i <= n,
            forall|j: int| 0 <= j < i ==> a@[j] == b@[j],
        decreases n - i,
    {
        if a[i] != b[i] {
            return false;
        }
        i += 1;
    }
    proof {
        assert(a@ =~= b@);
    }
    true
}

/// Compare two strings for equality, by their utf-8 bytes.
pub(crate) fn str_eq(a: &str, b: &str) -> (r: bool)
    ensures
        r == (a@ == b@),
{
    let r = bytes_equal(a.as_bytes(), b.as_bytes());
    proof {
        vstd::utf8::encode_utf8_decode_utf8(a@);
        vstd::utf8::encode_utf8_decode_utf8(b@);
    }
    r
}

/// The base64 flavour used when encoding or decoding arbitrary text.
#[derive(Clone, Copy, Debug, PartialEq, Eq, Structural)]
pub enum Base64FormatType {
    UrlSafe,
    Standard,
}

impl Base64FormatType {
    /// The name under which this flavour is selected on a command line.
    pub fn name(&self) -> (r: &'static str)
        ensures
            r@ == self.name_spec(),
    {
        match self {
            Base64FormatType::UrlSafe => "urlsafe",
            Base64FormatType::Standard => "standard",
        }
    }

    pub open spec fn name_spec(&self) -> Seq<char> {
        match self {
            Base64FormatType::UrlSafe => "urlsafe"@,
            Base64FormatType::Standard => "standard"@,
        }
    }
}

/// Why a base64 text failed to decode back into text.
#[derive(Clone, Copy, Debug, PartialEq, Eq, Structural)]
pub enum Base64DecodeError {
    /// The input is not a canonical encoding under the selected flavour.
    InvalidBase64,
    /// The decoded bytes are not valid utf-8.
    InvalidUtf8,
}

/// The text that `encode_base64` returns for the given input characters.
pub open spec fn encode_base64_spec(input: Seq<char>, format: Base64FormatType) -> Seq<char> {
    match format {
        Base64FormatType::UrlSafe => base64_url_encoding(vstd::utf8::encode_utf8(input)),
        Base64FormatType::Standard => base64_std_encoding(vstd::utf8::encode_utf8(input)),
    }
}

/// Encode the utf-8 bytes of `input` under the selected base64 flavour.
pub fn encode_base64(input: &str, format: Base64FormatType) -> (r: String)
    ensures
        r@ == encode_base64_spec(input@, format),
        decode_base64_spec(r@, format) == Ok::<Seq<char>, Base64DecodeError>(input@),
{
    let bytes = input.as_bytes();
    let encoded = match format {
        Base64FormatType::UrlSafe => base64_url_encode(bytes),
        Base64FormatType::Standard => base64_std_encode(bytes),
    };
    proof {
        vstd::utf8::encode_utf8_valid_utf8(input@);
        vstd::utf8::encode_utf8_decode_utf8(input@);
    }
    encoded
}

/// The outcome that `decode_base64` reports for the given text.
pub open spec fn decode_base64_spec(input: Seq<char>, format: Base64FormatType) -> Result<
    Seq<char>,
    Base64DecodeError,
> {
    let decoded = match format {
        Base64FormatType::UrlSafe => base64_url_decoding(input),
        Base64FormatType::Standard => base64_std_decoding(input),
    };
    match decoded {
        Option::None => Err(Base64DecodeError::InvalidBase64),
        Option::Some(bytes) => if valid_utf8(bytes) {
            Ok(decode_utf8(bytes))
        } else {
            Err(Base64DecodeError::InvalidUtf8)
        },
    }
}

/// Decode base64 text under the selected flavour and read the result as utf-8.
pub fn decode_base64(input: &str, format: Base64FormatType) -> (r: Result<
    String,
    Base64DecodeError,
>)
    ensures
        (r matches Ok(s) ==> decode_base64_spec(input@, format) == Ok::<
            Seq<char>,
            Base64DecodeError,
        >(s@)),
        (r matches Err(e) ==> decode_base64_spec(input@, format) == Err::<
            Seq<char>,
            Base64DecodeError,
        >(e)),
{
    let decoded = match format {
        Base64FormatType::UrlSafe => base64_url_decode(input),
        Base64FormatType::Standard => base64_std_decode(input),
    };
    match decoded {
        None => Err(Base64DecodeError::InvalidBase64),
        Some(bytes) => match bytes_to_string(bytes) {
            Some(s) => Ok(s),
            None => Err(Base64DecodeError::InvalidUtf8),
        },
    }
}

} // verus!
