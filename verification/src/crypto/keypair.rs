//! The Ed25519 key pair that identifies this endpoint.
//!
//! The key pair is kept as its 32-byte seed and the public key derived from
//! it. Signing, key derivation and Base64 belong to the `ed25519_dalek` and
//! `base64` crates; what they return is named here and not spelled out.

use super::json::{canonical, json_text, lookup, signature_key, Json, JsonValue};
use base64::engine::general_purpose::STANDARD;
use base64::Engine;
use ed25519_dalek::{Signature, Signer, SigningKey, Verifier, VerifyingKey};
use rand::rngs::OsRng;
use vstd::prelude::*;
use vstd::utf8::encode_utf8;

verus! {

/// `base64::DecodeError`: why a text is no Base64. It is carried through
/// as it is; nothing is known of what it holds.
#[verifier::external_type_specification]
#[verifier::external_body]
pub struct ExDecodeError(base64::DecodeError);

/// `ed25519_dalek::VerifyingKey`: a public key as that crate holds it. It
/// is carried through as it is; nothing is known of what it holds.
#[verifier::external_type_specification]
#[verifier::external_body]
pub struct ExVerifyingKey(VerifyingKey);

/// The Ed25519 public key that belongs to a 32-byte seed.
pub uninterp spec fn ed25519_public_key(seed: Seq<u8>) -> Seq<u8>;

/// The Ed25519 verifying key that belongs to a 32-byte seed, as
/// `ed25519_dalek` holds it.
pub uninterp spec fn ed25519_verifying_key(seed: Seq<u8>) -> VerifyingKey;

/// The Ed25519 signature that the key of a 32-byte seed puts on a message.
pub uninterp spec fn ed25519_signature(seed: Seq<u8>, message: Seq<u8>) -> Seq<u8>;

/// Whether Ed25519 verification under a public key accepts a signature on a
/// message.
pub uninterp spec fn ed25519_accepts(public_key: Seq<u8>, message: Seq<u8>, signature: Seq<u8>) -> bool;

/// The Base64 text of bytes: standard alphabet, padded, no line breaks.
pub uninterp spec fn base64_text(bytes: Seq<u8>) -> Seq<char>;

/// The bytes that a Base64 text stands for, if it is one.
pub uninterp spec fn base64_bytes(text: Seq<char>) -> Option<Seq<u8>>;

/// A text without the white space at its two ends.
pub uninterp spec fn trimmed(text: Seq<char>) -> Seq<char>;

/// The length of the padded Base64 text of `n` bytes.
pub open spec fn base64_len(n: nat) -> nat {
    4 * ((n + 2) / 3)
}

/// `SigningKey::generate` on the operating system's random number
/// generator: the seed of a fresh key. Nothing is claimed of it.
#[verifier::external_body]
fn random_seed() -> (seed: [u8; 32]) {
    SigningKey::generate(&mut OsRng).to_bytes()
}

/// `VerifyingKey::to_bytes` on the verifying key of a seed: the public
/// key, as its 32 bytes.
#[verifier::external_body]
fn derive_public_key(seed: &[u8; 32]) -> (public_key: [u8; 32])
    ensures
        public_key@ == ed25519_public_key(seed@),
{
    SigningKey::from_bytes(seed).verifying_key().to_bytes()
}

/// `SigningKey::verifying_key` on the signing key of a seed: the verifying
/// key as `ed25519_dalek` holds it, which the seed alone decides.
#[verifier::external_body]
fn derive_verifying_key(seed: &[u8; 32]) -> (key: VerifyingKey)
    ensures
        key == ed25519_verifying_key(seed@),
{
    SigningKey::from_bytes(seed).verifying_key()
}

/// `Signer::sign` with the key of a seed: the signature, as its 64 bytes.
/// Ed25519 signs deterministically, and verification under the seed's
/// public key accepts what it signed.
#[verifier::external_body]
fn sign_with_seed(seed: &[u8; 32], message: &[u8]) -> (signature: [u8; 64])
    ensures
        signature@ == ed25519_signature(seed@, message@),
        ed25519_accepts(ed25519_public_key(seed@), message@, signature@),
{
    SigningKey::from_bytes(seed).sign(message).to_bytes()
}

/// `Verifier::verify` under a public key given as bytes; bytes that are no
/// public key accept nothing.
#[verifier::external_body]
fn verify_with_key(public_key: &[u8; 32], message: &[u8], signature: &[u8; 64]) -> (accepted: bool)
    ensures
        accepted == ed25519_accepts(public_key@, message@, signature@),
{
    match VerifyingKey::from_bytes(public_key) {
        Ok(key) => key.verify(message, &Signature::from_bytes(signature)).is_ok(),
        Err(_) => false,
    }
}

/// `Engine::encode` of the standard engine: four characters for every
/// three bytes begun, and a text that decodes to the bytes again. It panics
/// only where the length of the text does not fit the machine's words,
/// which the precondition leaves out.
#[verifier::external_body]
fn base64_encode(bytes: &[u8]) -> (text: String)
    requires
        bytes@.len() <= usize::MAX / 2,
    ensures
        text@ == base64_text(bytes@),
        text@.len() == base64_len(bytes@.len()),
        base64_bytes(text@) == Some(bytes@),
{
    STANDARD.encode(bytes)
}

/// `Engine::decode` of the standard engine: the bytes, or the error that
/// says why the text is no Base64.
#[verifier::external_body]
fn base64_decode(text: &str) -> (r: Result<Vec<u8>, base64::DecodeError>)
    ensures
        match r {
            Ok(bytes) => base64_bytes(text@) == Some(bytes@),
            Err(_) => base64_bytes(text@).is_none(),
        },
{
    STANDARD.decode(text)
}

/// `str::trim`.
#[verifier::external_body]
fn trim<'a>(text: &'a str) -> (r: &'a str)
    ensures
        r@ == trimmed(text@),
{
    text.trim()
}

/// Why there is no key pair.
pub enum KeyPairError {
    /// The place of the key file could not be made or written.
    DirectoryCreation(String),
    /// The stored key is no Base64.
    Base64Decode(base64::DecodeError),
    /// The stored key has this many bytes, not 32.
    InvalidKeyLength(usize),
    InvalidKey,
}

/// An Ed25519 key pair.
#[derive(Clone)]
pub struct KeyPair {
    seed: [u8; 32],
    public_key: [u8; 32],
}

/// What a stored key decodes to: `Ok` with its 32 bytes, or `Err` with the
/// length found where that is not 32, and `None` where the text is no
/// Base64.
pub open spec fn stored_seed(encoded: Seq<char>) -> Option<Result<Seq<u8>, nat>> {
    match base64_bytes(trimmed(encoded)) {
        None => None,
        Some(bytes) => if bytes.len() == 32 {
            Some(Ok(bytes))
        } else {
            Some(Err(bytes.len()))
        },
    }
}

/// The bytes that are signed for a JSON value: the UTF-8 bytes of the
/// compact text of its canonical form.
pub open spec fn signed_bytes(payload: Json) -> Seq<u8> {
    encode_utf8(json_text(canonical(payload)))
}

/// `signature` is the Base64 text of 64 bytes that verify, under
/// `public_key`, as a signature on `message`.
pub open spec fn text_verifies(public_key: Seq<u8>, message: Seq<u8>, signature: Seq<char>) -> bool {
    match base64_bytes(signature) {
        Some(bytes) => bytes.len() == 64 && ed25519_accepts(public_key, message, bytes),
        None => false,
    }
}

/// `message` is an object whose member `signature` is a text that verifies,
/// under `public_key`, as a signature on the canonical form of `message`.
pub open spec fn message_verifies(public_key: Seq<u8>, message: Json) -> bool {
    match message {
        Json::Object(members) => match lookup(members, signature_key()) {
            Some(Json::Text(signature)) => text_verifies(
                public_key,
                signed_bytes(message),
                signature,
            ),
            _ => false,
        },
        _ => false,
    }
}

impl KeyPair {
    /// The public key is the one that belongs to the seed.
    pub closed spec fn wf(&self) -> bool {
        self.public_key@ == ed25519_public_key(self.seed@)
    }

    /// The 32-byte secret seed.
    pub closed spec fn seed(&self) -> Seq<u8> {
        self.seed@
    }

    /// The 32-byte public key.
    pub closed spec fn public_key(&self) -> Seq<u8> {
        self.public_key@
    }

    /// In a well-formed key pair the public key is the seed's.
    pub proof fn lemma_public_key(&self)
        requires
            self.wf(),
        ensures
            self.public_key() == ed25519_public_key(self.seed()),
            self.seed().len() == 32,
            self.public_key().len() == 32,
    {
    }

    /// The key pair of a seed.
    pub fn from_seed(seed: [u8; 32]) -> (r: KeyPair)
        ensures
            r.wf(),
            r.seed() == seed@,
    {
        let public_key = derive_public_key(&seed);
        KeyPair { seed, public_key }
    }

    /// A fresh key pair, from the operating system's random numbers.
    pub fn generate() -> (r: KeyPair)
        ensures
            r.wf(),
    {
        KeyPair::from_seed(random_seed())
    }

    /// The key pair that a stored key holds. The text is trimmed and decoded
    /// as Base64; anything but 32 bytes is refused.
    pub fn load_from_text(encoded: &str) -> (r: Result<KeyPair, KeyPairError>)
        ensures
            match stored_seed(encoded@) {
                None => r matches Err(KeyPairError::Base64Decode(_)),
                Some(Err(n)) => r matches Err(KeyPairError::InvalidKeyLength(m)) && m == n,
                Some(Ok(bytes)) => r matches Ok(k) && k.wf() && k.seed() == bytes,
            },
    {
        match base64_decode(trim(encoded)) {
            Err(e) => Err(KeyPairError::Base64Decode(e)),
            Ok(bytes) => {
                if bytes.len() != 32 {
                    return Err(KeyPairError::InvalidKeyLength(bytes.len()));
                }
                let mut seed = [0u8;32];
                let mut i: usize = 0;
                while i < 32
                    invariant
                        i <= 32,
                        bytes@.len() == 32,
                        forall|j: int| 0 <= j < i ==> seed@[j] == bytes@[j],
                    decreases 32 - i,
                {
                    seed[i] = bytes[i];
                    i += 1;
                }
                assert(seed@ =~= bytes@);
                Ok(KeyPair::from_seed(seed))
            },
        }
    }

    /// The key pair to work with, given what the key file holds, if there is
    /// one: the stored key pair, or a fresh one where nothing is stored.
    /// The flag says that the key pair is fresh and has to be stored.
    pub fn load_or_create(stored: Option<&str>) -> (r: Result<(KeyPair, bool), KeyPairError>)
        ensures
            match stored {
                None => r matches Ok(p) && p.0.wf() && p.1,
                Some(encoded) => match stored_seed(encoded@) {
                    None => r matches Err(KeyPairError::Base64Decode(_)),
                    Some(Err(n)) => r matches Err(KeyPairError::InvalidKeyLength(m)) && m == n,
                    Some(Ok(bytes)) => r matches Ok(p) && p.0.wf() && p.0.seed() == bytes && !p.1,
                },
            },
    {
        match stored {
            None => Ok((KeyPair::generate(), true)),
            Some(encoded) => match KeyPair::load_from_text(encoded) {
                Ok(k) => Ok((k, false)),
                Err(e) => Err(e),
            },
        }
    }

    /// The seed as the Base64 text that the key file holds.
    pub fn secret_base64(&self) -> (r: String)
        ensures
            r@ == base64_text(self.seed()),
            r@.len() == 44,
            base64_bytes(r@) == Some(self.seed()),
    {
        base64_encode(self.seed.as_slice())
    }

    /// The signature of this key pair on a message.
    pub fn sign(&self, message: &[u8]) -> (signature: [u8; 64])
        ensures
            signature@ == ed25519_signature(self.seed(), message@),
            self.wf() ==> ed25519_accepts(self.public_key(), message@, signature@),
    {
        sign_with_seed(&self.seed, message)
    }

    /// The signature of this key pair on a message, as Base64 text.
    pub fn sign_base64(&self, message: &[u8]) -> (r: String)
        ensures
            r@ == base64_text(ed25519_signature(self.seed(), message@)),
            r@.len() == 88,
            base64_bytes(r@) == Some(ed25519_signature(self.seed(), message@)),
            self.wf() ==> text_verifies(self.public_key(), message@, r@),
    {
        let signature = self.sign(message);
        base64_encode(signature.as_slice())
    }

    /// Whether a signature on a message verifies under this key pair's
    /// public key.
    pub fn verify(&self, message: &[u8], signature: &[u8; 64]) -> (accepted: bool)
        ensures
            accepted == ed25519_accepts(self.public_key(), message@, signature@),
    {
        verify_with_key(&self.public_key, message, signature)
    }

    /// The 32 bytes of the public key.
    pub fn public_key_bytes(&self) -> (r: [u8; 32])
        ensures
            r@ == self.public_key(),
    {
        self.public_key
    }

    /// The public key as Base64 text.
    pub fn public_key_base64(&self) -> (r: String)
        ensures
            r@ == base64_text(self.public_key()),
            r@.len() == 44,
            base64_bytes(r@) == Some(self.public_key()),
    {
        base64_encode(self.public_key.as_slice())
    }

    /// The public key as `ed25519_dalek` holds it: the verifying key that
    /// belongs to this key pair's seed.
    pub fn verifying_key(&self) -> (key: VerifyingKey)
        ensures
            key == ed25519_verifying_key(self.seed()),
    {
        derive_verifying_key(&self.seed)
    }

    /// The signature on a JSON value, as Base64 text: the signature on the
    /// UTF-8 bytes of the compact text of the value's canonical form.
    pub fn sign_message(&self, payload: &JsonValue) -> (r: String)
        ensures
            r@ == base64_text(ed25519_signature(self.seed(), signed_bytes(payload@))),
            r@.len() == 88,
            base64_bytes(r@) == Some(ed25519_signature(self.seed(), signed_bytes(payload@))),
            self.wf() ==> text_verifies(self.public_key(), signed_bytes(payload@), r@),
    {
        let text = payload.canonicalize().to_json_text();
        self.sign_base64(text.as_str().as_bytes())
    }

    /// Whether a signature given as Base64 text verifies, under this key
    /// pair's public key, as one on a message.
    pub fn verify_base64(&self, message: &[u8], signature: &str) -> (accepted: bool)
        ensures
            accepted == text_verifies(self.public_key(), message@, signature@),
    {
        match base64_decode(signature) {
            Err(_) => false,
            Ok(bytes) => {
                if bytes.len() != 64 {
                    return false;
                }
                let mut raw = [0u8;64];
                let mut i: usize = 0;
                while i < 64
                    invariant
                        i <= 64,
                        bytes@.len() == 64,
                        forall|j: int| 0 <= j < i ==> raw@[j] == bytes@[j],
                    decreases 64 - i,
                {
                    raw[i] = bytes[i];
                    i += 1;
                }
                assert(raw@ =~= bytes@);
                self.verify(message, &raw)
            },
        }
    }

    /// Whether a message carries a signature of this key pair: whether its
    /// member `signature` verifies as a signature on its canonical form.
    pub fn verify_message(&self, message: &JsonValue) -> (accepted: bool)
        ensures
            accepted == message_verifies(self.public_key(), message@),
    {
        match message.get("signature") {
            Some(JsonValue::Text(signature)) => {
                let text = message.canonicalize().to_json_text();
                self.verify_base64(text.as_str().as_bytes(), signature.as_str())
            },
            _ => false,
        }
    }
}

} // verus!
