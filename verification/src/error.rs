use vstd::prelude::*;

verus! {

/// The failures that loading keys, decoding signatures, and running the
/// cryptographic primitives can surface. A verification mismatch is not an
/// error: verifiers report it as an ordinary `false`.
#[derive(Clone, Copy, Debug, PartialEq, Eq, Structural)]
pub enum SignError {
    /// The input path does not exist and is not the stdin sentinel.
    InputNotFound,
    /// The key file is missing or unreadable.
    KeyLoadError,
    /// Key bytes are present but have the wrong length or fail the scheme's
    /// validity rules.
    KeyFormatError,
    /// The signature text is not valid url-safe base64 without padding.
    SignatureDecodeError,
    /// The decoded signature bytes are not the scheme's required length.
    SignatureFormatError,
    /// The underlying primitive could not process structurally valid input.
    CryptoFailure,
}

impl SignError {
    /// A short human-readable description of the failure.
    pub fn describe(&self) -> (r: &'static str)
        ensures
            r@ == self.describe_spec(),
    {
        match self {
            SignError::InputNotFound => "input path does not exist",
            SignError::KeyLoadError => "key file is missing or unreadable",
            SignError::KeyFormatError => "key bytes have the wrong length or are invalid",
            SignError::SignatureDecodeError => "signature text is not valid base64",
            SignError::SignatureFormatError => "signature bytes have the wrong length",
            SignError::CryptoFailure => "cryptographic primitive failed",
        }
    }

    pub open spec fn describe_spec(&self) -> Seq<char> {
        match self {
            SignError::InputNotFound => "input path does not exist"@,
            SignError::KeyLoadError => "key file is missing or unreadable"@,
            SignError::KeyFormatError => "key bytes have the wrong length or are invalid"@,
            SignError::SignatureDecodeError => "signature text is not valid base64"@,
            SignError::SignatureFormatError => "signature bytes have the wrong length"@,
            SignError::CryptoFailure => "cryptographic primitive failed"@,
        }
    }
}

} // verus!
