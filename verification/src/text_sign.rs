//! The capability interfaces shared by the two signing schemes, the scheme
//! selector, and the facade that signs, verifies, and generates keys behind
//! one uniform entry point.

use crate::codec::{base64_url_decode, base64_url_decoding, base64_url_encode, base64_url_encoding};
use crate::ed25519::{
    ed25519_accepts, ed25519_public_key, ed25519_signature, ed25519_valid_public_key,
    Ed25519Signer, Ed25519Verifier,
};
use crate::error::SignError;
use crate::keyed_hash::{keyed_digest, Blake3};
use vstd::prelude::*;

verus! {

/// The signing capability: producing signature bytes over a whole input.
pub trait TextSign {
    /// The state the signer's contracts rely on; loading establishes it.
    spec fn sign_wf(&self) -> bool;

    /// The signature bytes this signer produces for the given input.
    spec fn signature_spec(&self, input: Seq<u8>) -> Seq<u8>;

    /// Sign the whole input, producing the scheme's fixed-length signature.
    fn sign(&self, input: &[u8]) -> (r: Result<Vec<u8>, SignError>)
        requires
            self.sign_wf(),
        ensures
            r matches Ok(v) && v@ == self.signature_spec(input@),
    ;
}

/// The verification capability: checking signature bytes against an input.
pub trait TextVerify {
    /// The state the verifier's contracts rely on; loading establishes it.
    spec fn verify_wf(&self) -> bool;

    /// The exact outcome of verifying the given signature bytes against the
    /// given input: a verdict, or an error for malformed signature bytes.
    spec fn verdict_spec(&self, input: Seq<u8>, signature: Seq<u8>) -> Result<bool, SignError>;

    /// Check the signature bytes against the whole input. A mismatch is the
    /// ordinary verdict `false`; only malformed signature bytes are an error.
    fn verify(&self, input: &[u8], signature: &[u8]) -> (r: Result<bool, SignError>)
        requires
            self.verify_wf(),
        ensures
            r == self.verdict_spec(input@, signature@),
    ;
}

/// The key-loading capability: building a key object from the raw bytes of a
/// key file.
pub trait KeyLoader: Sized + View<V = Seq<u8>> {
    /// Which raw key-file bytes this scheme accepts.
    spec fn accepts_key(key: Seq<u8>) -> bool;

    /// The key material kept from an accepted key file.
    spec fn kept_key(key: Seq<u8>) -> Seq<u8>;

    /// Build the key object from raw key-file bytes.
    fn load(key: &[u8]) -> (r: Result<Self, SignError>)
        ensures
            Self::accepts_key(key@) ==> (r matches Ok(k) && k@ == Self::kept_key(key@)),
            !Self::accepts_key(key@) ==> (r matches Err(e) && e == SignError::KeyFormatError),
    ;
}

/// The key-generation capability: producing fresh key material.
pub trait KeyGenerator {
    /// The shape every freshly generated key set has: how many artifacts, and
    /// what must hold of each.
    spec fn generated_ok(keys: Seq<Seq<u8>>) -> bool;

    /// Generate fresh key material; the only failure is the random source.
    fn generate() -> (r: Result<Vec<Vec<u8>>, SignError>)
        ensures
            r matches Ok(v) ==> Self::generated_ok(v.deep_view()),
            r matches Err(e) ==> e == SignError::CryptoFailure,
    ;
}

/// The scheme a signing or verification call runs under.
#[derive(Clone, Copy, Debug, PartialEq, Eq, Structural)]
pub enum TextSignFormatType {
    /// The symmetric keyed-hash scheme.
    Blake3,
    /// The asymmetric signature scheme.
    Ed25519,
}

impl TextSignFormatType {
    /// The name under which this scheme is selected on a command line.
    pub fn name(&self) -> (r: &'static str)
        ensures
            r@ == self.name_spec(),
    {
        match self {
            TextSignFormatType::Blake3 => "blake3",
            TextSignFormatType::Ed25519 => "ed25519",
        }
    }

    pub open spec fn name_spec(&self) -> Seq<char> {
        match self {
            TextSignFormatType::Blake3 => "blake3"@,
            TextSignFormatType::Ed25519 => "ed25519"@,
        }
    }
}

/// Which raw key bytes the selected scheme's signer accepts.
pub open spec fn sign_key_ok(key: Seq<u8>, format: TextSignFormatType) -> bool {
    match format {
        TextSignFormatType::Blake3 => key.len() >= 32,
        TextSignFormatType::Ed25519 => key.len() == 32,
    }
}

/// The raw signature bytes the selected scheme produces for the input under
/// the given key material.
pub open spec fn sign_payload_spec(
    input: Seq<u8>,
    key: Seq<u8>,
    format: TextSignFormatType,
) -> Seq<u8> {
    match format {
        TextSignFormatType::Blake3 => keyed_digest(key.subrange(0, 32), input),
        TextSignFormatType::Ed25519 => ed25519_signature(key, input),
    }
}

/// Sign the whole input under the selected scheme, with key material as read
/// from a key file, and return the signature as url-safe unpadded base64.
pub fn sign_text(input: &[u8], key: &[u8], format: TextSignFormatType) -> (r: Result<
    String,
    SignError,
>)
    ensures
        sign_key_ok(key@, format) ==> (r matches Ok(s) && s@ == base64_url_encoding(
            sign_payload_spec(input@, key@, format),
        ) && base64_url_decoding(s@) == Some(sign_payload_spec(input@, key@, format))),
        (sign_key_ok(key@, format) && format == TextSignFormatType::Blake3) ==> (r matches Ok(s)
            && s@.len() == 43),
        (sign_key_ok(key@, format) && format == TextSignFormatType::Ed25519) ==> (r matches Ok(s)
            && s@.len() == 86),
        !sign_key_ok(key@, format) ==> (r matches Err(e) && e == SignError::KeyFormatError),
{
    let signed = match format {
        TextSignFormatType::Blake3 => {
            let signer = Blake3::load(key)?;
            signer.sign(input)?
        },
        TextSignFormatType::Ed25519 => {
            let signer = Ed25519Signer::load(key)?;
            signer.sign(input)?
        },
    };
    Ok(base64_url_encode(signed.as_slice()))
}

/// Which raw key bytes the selected scheme's verifier accepts.
pub open spec fn verify_key_ok(key: Seq<u8>, format: TextSignFormatType) -> bool {
    match format {
        TextSignFormatType::Blake3 => key.len() >= 32,
        TextSignFormatType::Ed25519 => key.len() == 32 && ed25519_valid_public_key(key),
    }
}

/// The verdict the selected scheme gives on raw signature bytes.
pub open spec fn verify_verdict_spec(
    input: Seq<u8>,
    key: Seq<u8>,
    sig: Seq<u8>,
    format: TextSignFormatType,
) -> Result<bool, SignError> {
    match format {
        TextSignFormatType::Blake3 => Ok(sig == keyed_digest(key.subrange(0, 32), input)),
        TextSignFormatType::Ed25519 => if sig.len() != 64 {
            Err(SignError::SignatureFormatError)
        } else {
            Ok(ed25519_accepts(key, input, sig))
        },
    }
}

/// The outcome of the whole verification pipeline: decode the signature text,
/// load the key, and check the signature bytes against the input.
pub open spec fn verify_text_spec(
    input: Seq<u8>,
    key: Seq<u8>,
    sig_text: Seq<char>,
    format: TextSignFormatType,
) -> Result<bool, SignError> {
    match base64_url_decoding(sig_text) {
        Option::None => Err(SignError::SignatureDecodeError),
        Option::Some(sig) => if !verify_key_ok(key, format) {
            Err(SignError::KeyFormatError)
        } else {
            verify_verdict_spec(input, key, sig, format)
        },
    }
}

/// Verify a base64 signature text against the whole input under the selected
/// scheme. A mismatch is the ordinary verdict `false`; undecodable text, bad
/// key material, and malformed signature bytes are errors. The last two
/// clauses state the round trips: a signature that `sign_text` produced for
/// this input, under the same symmetric key or under the secret key this
/// public key was derived from, always verifies.
pub fn verify_text(input: &[u8], key: &[u8], sig: &str, format: TextSignFormatType) -> (r: Result<
    bool,
    SignError,
>)
    ensures
        r == verify_text_spec(input@, key@, sig@, format),
        (format == TextSignFormatType::Blake3 && key@.len() >= 32 && base64_url_decoding(sig@)
            == Some(sign_payload_spec(input@, key@, format))) ==> r == Ok::<bool, SignError>(true),
        (format == TextSignFormatType::Ed25519 && (exists|sk: Seq<u8>|
            sk.len() == 32 && key@ == ed25519_public_key(sk) && base64_url_decoding(sig@) == Some(
                ed25519_signature(sk, input@),
            ))) ==> r == Ok::<bool, SignError>(true),
{
    let sig_bytes = match base64_url_decode(sig) {
        Some(bytes) => bytes,
        None => {
            return Err(SignError::SignatureDecodeError);
        },
    };
    match format {
        TextSignFormatType::Blake3 => {
            let verifier = Blake3::load(key)?;
            verifier.verify(input, sig_bytes.as_slice())
        },
        TextSignFormatType::Ed25519 => {
            let verifier = Ed25519Verifier::load(key)?;
            verifier.verify(input, sig_bytes.as_slice())
        },
    }
}

/// The shape of the key material generated for the selected scheme: one
/// 32-byte secret for the symmetric scheme; a 32-byte secret and its derived
/// public key, in that order, for the asymmetric scheme.
pub open spec fn generated_keys_ok(keys: Seq<Seq<u8>>, format: TextSignFormatType) -> bool {
    match format {
        TextSignFormatType::Blake3 => <Blake3 as KeyGenerator>::generated_ok(keys),
        TextSignFormatType::Ed25519 => <Ed25519Signer as KeyGenerator>::generated_ok(keys),
    }
}

/// Generate fresh key material for the selected scheme. The symmetric
/// generator draws from the in-process generator and always succeeds; only
/// the asymmetric generator can fail, when the operating system's random
/// source does.
pub fn generate_key(format: TextSignFormatType) -> (r: Result<Vec<Vec<u8>>, SignError>)
    ensures
        format == TextSignFormatType::Blake3 ==> (r matches Ok(v) && generated_keys_ok(
            v.deep_view(),
            format,
        )),
        r matches Ok(v) ==> generated_keys_ok(v.deep_view(), format),
        r matches Err(e) ==> e == SignError::CryptoFailure,
{
    match format {
        TextSignFormatType::Blake3 => Blake3::generate(),
        TextSignFormatType::Ed25519 => Ed25519Signer::generate(),
    }
}

/// Round trip, symmetric scheme: for every input and every accepted key, the
/// signature the scheme produces is exactly what its verifier recomputes, so
/// verification reports `true`.
pub proof fn lemma_symmetric_round_trip(input: Seq<u8>, key: Seq<u8>)
    requires
        key.len() >= 32,
    ensures
        verify_verdict_spec(
            input,
            key,
            sign_payload_spec(input, key, TextSignFormatType::Blake3),
            TextSignFormatType::Blake3,
        ) == Ok::<bool, SignError>(true),
{
}

/// Determinism, symmetric scheme: the signature is a function of the key and
/// the input alone, so two calls with equal arguments give equal bytes.
pub proof fn lemma_symmetric_sign_deterministic(
    input1: Seq<u8>,
    key1: Seq<u8>,
    input2: Seq<u8>,
    key2: Seq<u8>,
)
    requires
        input1 == input2,
        key1 == key2,
    ensures
        sign_payload_spec(input1, key1, TextSignFormatType::Blake3) == sign_payload_spec(
            input2,
            key2,
            TextSignFormatType::Blake3,
        ),
{
}

/// Round trip, asymmetric scheme: a signature made with a secret key verifies
/// under the public key derived from it, and that public key is accepted by
/// the verifier's loader.
pub proof fn lemma_asymmetric_round_trip(input: Seq<u8>, sk: Seq<u8>)
    requires
        sk.len() == 32,
    ensures
        verify_key_ok(ed25519_public_key(sk), TextSignFormatType::Ed25519),
        verify_verdict_spec(
            input,
            ed25519_public_key(sk),
            sign_payload_spec(input, sk, TextSignFormatType::Ed25519),
            TextSignFormatType::Ed25519,
        ) == Ok::<bool, SignError>(true),
{
    let pk = ed25519_public_key(sk);
    let sig = ed25519_signature(sk, input);
    assert(pk.len() == 32);
    assert(ed25519_valid_public_key(pk));
    assert(sig.len() == 64);
    assert(ed25519_accepts(pk, input, sig));
}

/// Cross-scheme rejection, one way: a symmetric signature is 32 bytes, never
/// the asymmetric scheme's 64, so the asymmetric verifier reports a
/// signature-format error on it whatever the keys and inputs are.
pub proof fn lemma_cross_scheme_symmetric_sig_rejected(
    input: Seq<u8>,
    sym_key: Seq<u8>,
    pk: Seq<u8>,
    input2: Seq<u8>,
)
    ensures
        verify_verdict_spec(
            input2,
            pk,
            sign_payload_spec(input, sym_key, TextSignFormatType::Blake3),
            TextSignFormatType::Ed25519,
        ) == Err::<bool, SignError>(SignError::SignatureFormatError),
{
}

/// Cross-scheme rejection, the other way: an asymmetric signature is 64
/// bytes, never equal to a 32-byte keyed digest, so the symmetric verifier
/// reports the ordinary verdict `false` on it whatever the keys and inputs
/// are.
pub proof fn lemma_cross_scheme_asymmetric_sig_rejected(
    input: Seq<u8>,
    sk: Seq<u8>,
    sym_key: Seq<u8>,
    input2: Seq<u8>,
)
    ensures
        verify_verdict_spec(
            input2,
            sym_key,
            sign_payload_spec(input, sk, TextSignFormatType::Ed25519),
            TextSignFormatType::Blake3,
        ) == Ok::<bool, SignError>(false),
{
    let sig = sign_payload_spec(input, sk, TextSignFormatType::Ed25519);
    let digest = keyed_digest(sym_key.subrange(0, 32), input2);
    assert(sig.len() == 64 && digest.len() == 32);
}

/// Tampering, symmetric scheme: changing any single byte of a symmetric
/// signature makes verification under the same key and input report `false`.
pub proof fn lemma_symmetric_tampered_signature(input: Seq<u8>, key: Seq<u8>, i: int, b: u8)
    requires
        0 <= i < 32,
        b != sign_payload_spec(input, key, TextSignFormatType::Blake3)[i],
    ensures
        verify_verdict_spec(
            input,
            key,
            sign_payload_spec(input, key, TextSignFormatType::Blake3).update(i, b),
            TextSignFormatType::Blake3,
        ) == Ok::<bool, SignError>(false),
{
    let sig = sign_payload_spec(input, key, TextSignFormatType::Blake3);
    assert(sig.update(i, b)[i] == b);
    assert(sig.update(i, b) != sig);
}

} // verus!
