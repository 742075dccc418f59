//! The symmetric scheme: a 32-byte secret key and blake3's keyed hash as the
//! signature. Verification recomputes the digest and compares byte for byte.

use crate::codec::bytes_equal;
use crate::error::SignError;
use crate::password::gen_pass;
use crate::text_sign::{KeyGenerator, KeyLoader, TextSign, TextVerify};
use vstd::prelude::*;
use vstd::slice::slice_to_vec;

verus! {

/// The digest that blake3's keyed hash returns for the given 32-byte key and
/// input; pinned only through the trusted wrapper below.
pub uninterp spec fn blake3_raw_digest(key: Seq<u8>, input: Seq<u8>) -> Seq<u8>;

/// The keyed digest as the contracts use it. Blake3 digests are exactly 32
/// bytes, so the raw name is normalised to that length, which makes the
/// length available to specifications.
pub open spec fn keyed_digest(key: Seq<u8>, input: Seq<u8>) -> Seq<u8> {
    if blake3_raw_digest(key, input).len() == 32 {
        blake3_raw_digest(key, input)
    } else {
        Seq::new(32, |i: int| 0u8)
    }
}

/// Relies on `blake3::keyed_hash`: a 32-byte digest that is a function of the
/// key and the input alone.
#[verifier::external_body]
fn blake3_keyed_hash(key: &[u8], input: &[u8]) -> (r: Vec<u8>)
    requires
        key@.len() == 32,
    ensures
        r@ == blake3_raw_digest(key@, input@),
        r@ == keyed_digest(key@, input@),
{
    let key: &[u8; 32] = key.try_into().unwrap();
    blake3::keyed_hash(key, input).as_bytes().to_vec()
}

/// The symmetric signer and verifier: a 32-byte secret key for blake3's keyed
/// hash.
pub struct Blake3 {
    /// The 32-byte secret key.
    pub key: Vec<u8>,
}

impl View for Blake3 {
    type V = Seq<u8>;

    open spec fn view(&self) -> Seq<u8> {
        self.key@
    }
}

impl Blake3 {
    /// Whether the key has the scheme's exact length.
    pub open spec fn wf(&self) -> bool {
        self@.len() == 32
    }

    /// Wrap an exactly-sized key.
    pub fn new(key: [u8; 32]) -> (r: Self)
        ensures
            r@ == key@,
            r.wf(),
    {
        Blake3 { key: slice_to_vec(key.as_slice()) }
    }

    /// Keep the first 32 bytes of the given key material; fewer than 32 bytes
    /// are rejected, excess bytes are deliberately discarded.
    pub fn try_new(key: &[u8]) -> (r: Result<Self, SignError>)
        ensures
            key@.len() < 32 ==> (r matches Err(e) && e == SignError::KeyFormatError),
            key@.len() >= 32 ==> (r matches Ok(b) && b@ == key@.subrange(0, 32) && b.wf()),
    {
        if key.len() < 32 {
            Err(SignError::KeyFormatError)
        } else {
            let head: &[u8] = &key[0..32];
            Ok(Blake3 { key: slice_to_vec(head) })
        }
    }
}

impl TextSign for Blake3 {
    open spec fn sign_wf(&self) -> bool {
        self.wf()
    }

    open spec fn signature_spec(&self, input: Seq<u8>) -> Seq<u8> {
        keyed_digest(self@, input)
    }

    fn sign(&self, input: &[u8]) -> (r: Result<Vec<u8>, SignError>) {
        Ok(blake3_keyed_hash(self.key.as_slice(), input))
    }
}

impl TextVerify for Blake3 {
    open spec fn verify_wf(&self) -> bool {
        self.wf()
    }

    open spec fn verdict_spec(&self, input: Seq<u8>, signature: Seq<u8>) -> Result<
        bool,
        SignError,
    > {
        Ok(signature == keyed_digest(self@, input))
    }

    fn verify(&self, input: &[u8], signature: &[u8]) -> (r: Result<bool, SignError>) {
        let digest = blake3_keyed_hash(self.key.as_slice(), input);
        Ok(bytes_equal(digest.as_slice(), signature))
    }
}

impl KeyLoader for Blake3 {
    open spec fn accepts_key(key: Seq<u8>) -> bool {
        key.len() >= 32
    }

    open spec fn kept_key(key: Seq<u8>) -> Seq<u8> {
        key.subrange(0, 32)
    }

    fn load(key: &[u8]) -> (r: Result<Self, SignError>) {
        Self::try_new(key)
    }
}

impl KeyGenerator for Blake3 {
    open spec fn generated_ok(keys: Seq<Seq<u8>>) -> bool {
        &&& keys.len() == 1
        &&& keys[0].len() == 32
        &&& forall|i: int| 0 <= i < keys[0].len() ==> keys[0][i] < 128
    }

    fn generate() -> (r: Result<Vec<Vec<u8>>, SignError>)
        ensures
            r matches Ok(v) && Self::generated_ok(v.deep_view()),
    {
        let password = gen_pass(32, false, false, false, false)?;
        proof {
            crate::password::lemma_allowed_chars_ascii(password@, false, false, false, false);
            vstd::utf8::is_ascii_chars_encode_utf8(password@);
        }
        let key: Vec<u8> = slice_to_vec(password.as_str().as_bytes());
        let mut keys: Vec<Vec<u8>> = Vec::new();
        keys.push(key);
        proof {
            assert(keys.deep_view().len() == 1);
            assert(keys.deep_view()[0] =~= keys@[0]@);
        }
        Ok(keys)
    }
}

} // verus!
