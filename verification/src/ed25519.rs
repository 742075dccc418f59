//! The asymmetric scheme: ed25519 signatures through ed25519-dalek, modelled
//! over the raw key and signature bytes. A signer holds the 32 secret bytes,
//! a verifier holds the 32 public bytes and never learns the secret.

use crate::error::SignError;
use crate::text_sign::{KeyGenerator, KeyLoader, TextSign, TextVerify};
use vstd::prelude::*;
use vstd::slice::slice_to_vec;

verus! {

/// The signature that dalek returns for the given secret key and input;
/// pinned only through the trusted wrappers below.
pub uninterp spec fn ed25519_raw_signature(sk: Seq<u8>, input: Seq<u8>) -> Seq<u8>;

/// The signature as the contracts use it. Ed25519 signatures are exactly 64
/// bytes, so the raw name is normalised to that length, which makes the
/// length available to specifications.
pub open spec fn ed25519_signature(sk: Seq<u8>, input: Seq<u8>) -> Seq<u8> {
    if ed25519_raw_signature(sk, input).len() == 64 {
        ed25519_raw_signature(sk, input)
    } else {
        Seq::new(64, |i: int| 0u8)
    }
}

/// The public key that dalek derives from the given secret key bytes; pinned
/// only through the trusted wrappers below.
pub uninterp spec fn ed25519_raw_public_key(sk: Seq<u8>) -> Seq<u8>;

/// The derived public key as the contracts use it, normalised to its exact
/// 32-byte length.
pub open spec fn ed25519_public_key(sk: Seq<u8>) -> Seq<u8> {
    if ed25519_raw_public_key(sk).len() == 32 {
        ed25519_raw_public_key(sk)
    } else {
        Seq::new(32, |i: int| 0u8)
    }
}

/// Whether dalek decodes the given 32 bytes into a curve point; pinned only
/// through the trusted wrappers below.
pub uninterp spec fn ed25519_point_decodes(pk: Seq<u8>) -> bool;

/// Which 32-byte strings load as a public key: every derived public key does,
/// and otherwise exactly those that decode to a curve point.
pub open spec fn ed25519_valid_public_key(pk: Seq<u8>) -> bool {
    ed25519_point_decodes(pk) || (exists|sk: Seq<u8>|
        sk.len() == 32 && pk == ed25519_public_key(sk))
}

/// The verdict dalek's verification gives on arbitrary bytes; pinned only
/// through the trusted wrappers below.
pub uninterp spec fn ed25519_raw_accepts(pk: Seq<u8>, input: Seq<u8>, sig: Seq<u8>) -> bool;

/// Whether verification accepts the signature bytes: always on a signature
/// made with the matching secret key, and otherwise exactly when dalek's
/// check of the bytes passes.
pub open spec fn ed25519_accepts(pk: Seq<u8>, input: Seq<u8>, sig: Seq<u8>) -> bool {
    (exists|sk: Seq<u8>|
        sk.len() == 32 && pk == ed25519_public_key(sk) && sig == ed25519_signature(sk, input))
        || ed25519_raw_accepts(pk, input, sig)
}

/// Relies on ed25519-dalek's `SigningKey::sign` (RFC 8032): a deterministic
/// 64-byte signature over the input, a function of the secret key bytes and
/// the input alone.
#[verifier::external_body]
fn ed25519_sign_bytes(sk: &[u8], input: &[u8]) -> (r: Vec<u8>)
    requires
        sk@.len() == 32,
    ensures
        r@ == ed25519_raw_signature(sk@, input@),
        r@ == ed25519_signature(sk@, input@),
{
    let key = ed25519_dalek::SigningKey::from_bytes(sk.try_into().unwrap());
    ed25519_dalek::Signer::sign(&key, input).to_vec()
}

/// Relies on ed25519-dalek's `SigningKey::verifying_key`: the 32 public-key
/// bytes derived from the secret key bytes, a function of them alone.
#[verifier::external_body]
fn ed25519_derive_public(sk: &[u8]) -> (r: Vec<u8>)
    requires
        sk@.len() == 32,
    ensures
        r@ == ed25519_raw_public_key(sk@),
        r@ == ed25519_public_key(sk@),
{
    let key = ed25519_dalek::SigningKey::from_bytes(sk.try_into().unwrap());
    key.verifying_key().to_bytes().to_vec()
}

/// Relies on ed25519-dalek's `VerifyingKey::from_bytes`: it accepts exactly
/// the 32-byte strings that decode to a curve point, and every key that
/// `verifying_key` derives decodes back.
#[verifier::external_body]
fn ed25519_check_public(pk: &[u8]) -> (r: bool)
    requires
        pk@.len() == 32,
    ensures
        r == ed25519_point_decodes(pk@),
        r == ed25519_valid_public_key(pk@),
{
    ed25519_dalek::VerifyingKey::from_bytes(pk.try_into().unwrap()).is_ok()
}

/// Relies on ed25519-dalek's `Verifier::verify` (RFC 8032): deterministic in
/// the public key, input and signature bytes, and it accepts every signature
/// made with the matching secret key over the same input.
#[verifier::external_body]
fn ed25519_verify_bytes(pk: &[u8], input: &[u8], sig: &[u8]) -> (r: bool)
    requires
        pk@.len() == 32,
        sig@.len() == 64,
    ensures
        r == ed25519_raw_accepts(pk@, input@, sig@),
        r == ed25519_accepts(pk@, input@, sig@),
{
    let key = match ed25519_dalek::VerifyingKey::from_bytes(pk.try_into().unwrap()) {
        Ok(key) => key,
        Err(_) => return false,
    };
    let sig = ed25519_dalek::Signature::from_bytes(sig.try_into().unwrap());
    ed25519_dalek::Verifier::verify(&key, input, &sig).is_ok()
}

/// Relies on rand's `OsRng`: 32 bytes from the operating system's secure
/// random source, or nothing when that source fails.
#[verifier::external_body]
fn os_random_32() -> (r: Option<Vec<u8>>)
    ensures
        r matches Some(v) ==> v@.len() == 32,
{
    let mut buf = [0u8; 32];
    match rand::RngCore::try_fill_bytes(&mut rand::rngs::OsRng, &mut buf) {
        Ok(()) => Some(buf.to_vec()),
        Err(_) => None,
    }
}

/// The signing half of an ed25519 key pair.
pub struct Ed25519Signer {
    /// The 32 secret-key bytes.
    pub key: Vec<u8>,
}

impl View for Ed25519Signer {
    type V = Seq<u8>;

    open spec fn view(&self) -> Seq<u8> {
        self.key@
    }
}

impl Ed25519Signer {
    /// Whether the key has the scheme's exact length.
    pub open spec fn wf(&self) -> bool {
        self@.len() == 32
    }

    /// Wrap exactly-sized secret-key bytes.
    pub fn new(key: [u8; 32]) -> (r: Self)
        ensures
            r@ == key@,
            r.wf(),
    {
        Ed25519Signer { key: slice_to_vec(key.as_slice()) }
    }

    /// Accept exactly 32 bytes of secret-key material.
    pub fn try_new(key: &[u8]) -> (r: Result<Self, SignError>)
        ensures
            key@.len() != 32 ==> (r matches Err(e) && e == SignError::KeyFormatError),
            key@.len() == 32 ==> (r matches Ok(s) && s@ == key@ && s.wf()),
    {
        if key.len() != 32 {
            Err(SignError::KeyFormatError)
        } else {
            Ok(Ed25519Signer { key: slice_to_vec(key) })
        }
    }
}

impl TextSign for Ed25519Signer {
    open spec fn sign_wf(&self) -> bool {
        self.wf()
    }

    open spec fn signature_spec(&self, input: Seq<u8>) -> Seq<u8> {
        ed25519_signature(self@, input)
    }

    fn sign(&self, input: &[u8]) -> (r: Result<Vec<u8>, SignError>) {
        Ok(ed25519_sign_bytes(self.key.as_slice(), input))
    }
}

impl KeyLoader for Ed25519Signer {
    open spec fn accepts_key(key: Seq<u8>) -> bool {
        key.len() == 32
    }

    open spec fn kept_key(key: Seq<u8>) -> Seq<u8> {
        key
    }

    fn load(key: &[u8]) -> (r: Result<Self, SignError>) {
        Self::try_new(key)
    }
}

impl KeyGenerator for Ed25519Signer {
    open spec fn generated_ok(keys: Seq<Seq<u8>>) -> bool {
        &&& keys.len() == 2
        &&& keys[0].len() == 32
        &&& keys[1] == ed25519_public_key(keys[0])
    }

    fn generate() -> (r: Result<Vec<Vec<u8>>, SignError>) {
        let sk = match os_random_32() {
            Some(sk) => sk,
            None => return Err(SignError::CryptoFailure),
        };
        let pk = ed25519_derive_public(sk.as_slice());
        let mut keys: Vec<Vec<u8>> = Vec::new();
        keys.push(sk);
        keys.push(pk);
        proof {
            assert(keys.deep_view().len() == 2);
            assert(keys.deep_view()[0] =~= keys@[0]@);
            assert(keys.deep_view()[1] =~= keys@[1]@);
        }
        Ok(keys)
    }
}

/// The verifying half of an ed25519 key pair; it has no signing power.
pub struct Ed25519Verifier {
    /// The 32 public-key bytes.
    pub key: Vec<u8>,
}

impl View for Ed25519Verifier {
    type V = Seq<u8>;

    open spec fn view(&self) -> Seq<u8> {
        self.key@
    }
}

impl Ed25519Verifier {
    /// Whether the key has the scheme's exact length and decodes to a point.
    pub open spec fn wf(&self) -> bool {
        self@.len() == 32 && ed25519_valid_public_key(self@)
    }

    /// Wrap exactly-sized public-key bytes; they are only usable for
    /// verification when they decode to a curve point.
    pub fn new(key: [u8; 32]) -> (r: Self)
        ensures
            r@ == key@,
    {
        Ed25519Verifier { key: slice_to_vec(key.as_slice()) }
    }

    /// Accept exactly 32 bytes that decode to a valid public key.
    pub fn try_new(key: &[u8]) -> (r: Result<Self, SignError>)
        ensures
            (key@.len() == 32 && ed25519_valid_public_key(key@)) ==> (r matches Ok(v) && v@ == key@
                && v.wf()),
            !(key@.len() == 32 && ed25519_valid_public_key(key@)) ==> (r matches Err(e) && e
                == SignError::KeyFormatError),
    {
        if key.len() != 32 {
            Err(SignError::KeyFormatError)
        } else if !ed25519_check_public(key) {
            Err(SignError::KeyFormatError)
        } else {
            Ok(Ed25519Verifier { key: slice_to_vec(key) })
        }
    }
}

impl TextVerify for Ed25519Verifier {
    open spec fn verify_wf(&self) -> bool {
        self.wf()
    }

    open spec fn verdict_spec(&self, input: Seq<u8>, signature: Seq<u8>) -> Result<
        bool,
        SignError,
    > {
        if signature.len() != 64 {
            Err(SignError::SignatureFormatError)
        } else {
            Ok(ed25519_accepts(self@, input, signature))
        }
    }

    fn verify(&self, input: &[u8], signature: &[u8]) -> (r: Result<bool, SignError>) {
        if signature.len() != 64 {
            Err(SignError::SignatureFormatError)
        } else {
            Ok(ed25519_verify_bytes(self.key.as_slice(), input, signature))
        }
    }
}

impl KeyLoader for Ed25519Verifier {
    open spec fn accepts_key(key: Seq<u8>) -> bool {
        key.len() == 32 && ed25519_valid_public_key(key)
    }

    open spec fn kept_key(key: Seq<u8>) -> Seq<u8> {
        key
    }

    fn load(key: &[u8]) -> (r: Result<Self, SignError>) {
        Self::try_new(key)
    }
}

} // verus!
