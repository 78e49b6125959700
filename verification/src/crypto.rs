//! The signing identity: an Ed25519 key pair, its text form at rest, and the
//! signatures it makes.

use crate::encoding::{base64_bytes, base64_decode, base64_encode, base64_text, hex_encode, hex_text};
use crate::text::{lemma_trimmed_unchanged, trim, trimmed};
use ed25519_dalek::{Signer, Verifier};
use vstd::prelude::*;

verus! {

/// The public key that belongs to a 32-byte Ed25519 secret key.
pub uninterp spec fn ed25519_public(secret: Seq<u8>) -> Seq<u8>;

/// The Ed25519 signature of a message under a 32-byte secret key.
pub uninterp spec fn ed25519_signature(secret: Seq<u8>, message: Seq<u8>) -> Seq<u8>;

/// Whether a 64-byte signature of a message verifies under a 32-byte public key.
pub uninterp spec fn ed25519_verifies(public: Seq<u8>, message: Seq<u8>, signature: Seq<u8>) -> bool;

/// `SigningKey::from_bytes`, then `SigningKey::verifying_key`, as bytes. The
/// contract only names the result: a secret key has one public key.
#[verifier::external_body]
fn derive_public(secret: &[u8; 32]) -> (public: [u8; 32])
    ensures
        public@ == ed25519_public(secret@),
{
    ed25519_dalek::SigningKey::from_bytes(secret).verifying_key().to_bytes()
}

/// `Signer::sign` of the `SigningKey` made from the secret bytes. Signing is
/// deterministic, so the contract names the signature; it adds that the
/// signature verifies under the public key that belongs to the secret key.
#[verifier::external_body]
fn sign_with(secret: &[u8; 32], message: &[u8]) -> (signature: [u8; 64])
    ensures
        signature@ == ed25519_signature(secret@, message@),
        ed25519_verifies(ed25519_public(secret@), message@, signature@),
{
    ed25519_dalek::SigningKey::from_bytes(secret).sign(message).to_bytes()
}

/// `VerifyingKey::from_bytes`, then `Verifier::verify`: true where the bytes
/// are a public key and the signature is valid for the message under it. The
/// contract only names the result.
#[verifier::external_body]
fn verify_with(public: &[u8; 32], message: &[u8], signature: &[u8; 64]) -> (valid: bool)
    ensures
        valid == ed25519_verifies(public@, message@, signature@),
{
    match ed25519_dalek::VerifyingKey::from_bytes(public) {
        Ok(key) => key.verify(message, &ed25519_dalek::Signature::from_bytes(signature)).is_ok(),
        Err(_) => false,
    }
}

/// `SigningKey::generate` with the operating system's random source, as
/// bytes. Nothing is promised of the outcome. The call gives up where the
/// operating system has no random bytes to give.
#[verifier::external_body]
fn random_secret() -> (secret: [u8; 32]) {
    ed25519_dalek::SigningKey::generate(&mut rand_core::OsRng).to_bytes()
}

/// Why persisted key material was refused.
#[derive(Debug, Clone, Copy, PartialEq, Eq)]
pub enum KeyError {
    /// The text is not valid Base64.
    InvalidEncoding,
    /// The text decodes to something other than 32 bytes.
    WrongLength,
}

/// The secret key that a persisted text holds, or why it holds none: the text
/// without surrounding white space must be the Base64 form of 32 bytes.
pub open spec fn persisted_secret(text: Seq<char>) -> Result<Seq<u8>, KeyError> {
    match base64_bytes(trimmed(text)) {
        None => Err(KeyError::InvalidEncoding),
        Some(bytes) => if bytes.len() == 32 {
            Ok(bytes)
        } else {
            Err(KeyError::WrongLength)
        },
    }
}

/// Whether a signature of a message verifies under a public key, given as
/// byte strings of any length.
pub open spec fn signature_valid(public: Seq<u8>, message: Seq<u8>, signature: Seq<u8>) -> bool {
    public.len() == 32 && signature.len() == 64 && ed25519_verifies(public, message, signature)
}

/// The bytes of a slice of known length, as an array.
fn to_array<const N: usize>(bytes: &[u8]) -> (array: [u8; N])
    requires
        bytes@.len() == N,
    ensures
        array@ == bytes@,
{
    let mut array: [u8; N] = [0u8; N];
    let mut i: usize = 0;
    while i < N
        invariant
            i <= N,
            bytes@.len() == N,
            forall|k: int| 0 <= k < i ==> array@[k] == bytes@[k],
        decreases N - i,
    {
        array[i] = bytes[i];
        i = i + 1;
    }
    array
}

/// Checks a signature of a message under a public key. Byte strings of the
/// wrong length are refused without being looked at.
pub fn verify_signature(public: &[u8], message: &[u8], signature: &[u8]) -> (valid: bool)
    ensures
        valid == signature_valid(public@, message@, signature@),
{
    if public.len() != 32 || signature.len() != 64 {
        return false;
    }
    let key: [u8; 32] = to_array(public);
    let sig: [u8; 64] = to_array(signature);
    verify_with(&key, message, &sig)
}

/// An Ed25519 key pair. The public half is always the one that belongs to the
/// secret half.
pub struct Crypto {
    secret: [u8; 32],
    public: [u8; 32],
}

/// What `Crypto::load_or_create` hands back: the key pair, and the text to
/// persist where the key pair was newly made.
pub struct KeyMaterial {
    pub crypto: Crypto,
    pub to_persist: Option<String>,
}

impl Crypto {
    #[verifier::type_invariant]
    spec fn paired(self) -> bool {
        self.public@ == ed25519_public(self.secret@)
    }

    /// The 32 secret bytes.
    pub closed spec fn secret_bytes(self) -> Seq<u8> {
        self.secret@
    }

    /// The 32 public bytes.
    pub closed spec fn public_bytes(self) -> Seq<u8> {
        self.public@
    }

    /// Whether the two halves belong together and have their lengths.
    pub open spec fn well_formed(self) -> bool {
        &&& self.secret_bytes().len() == 32
        &&& self.public_bytes().len() == 32
        &&& self.public_bytes() == ed25519_public(self.secret_bytes())
    }

    /// The identity that the key pair shows to the outside: its public key
    /// in lower-case hexadecimal.
    pub open spec fn identity(self) -> Seq<char> {
        hex_text(self.public_bytes())
    }

    /// Whether this is the key pair held by a persisted text.
    pub open spec fn loaded_from(self, text: Seq<char>) -> bool {
        self.well_formed() && persisted_secret(text) == Ok::<Seq<u8>, KeyError>(self.secret_bytes())
    }

    /// The key pair of a secret key.
    fn from_secret(secret: [u8; 32]) -> (crypto: Crypto)
        ensures
            crypto.secret_bytes() == secret@,
            crypto.well_formed(),
    {
        let public = derive_public(&secret);
        Crypto { secret, public }
    }

    /// A new key pair from the operating system's random source.
    pub fn new() -> (crypto: Crypto)
        ensures
            crypto.well_formed(),
    {
        Crypto::from_secret(random_secret())
    }

    /// The key pair of the given secret bytes, of which there must be 32.
    pub fn from_secret_bytes(bytes: &[u8]) -> (r: Result<Crypto, KeyError>)
        ensures
            match r {
                Ok(crypto) => bytes@.len() == 32 && crypto.secret_bytes() == bytes@
                    && crypto.well_formed(),
                Err(e) => bytes@.len() != 32 && e == KeyError::WrongLength,
            },
    {
        if bytes.len() != 32 {
            return Err(KeyError::WrongLength);
        }
        Ok(Crypto::from_secret(to_array(bytes)))
    }

    /// Reads a key pair from its persisted text: Base64 of the 32 secret
    /// bytes, white space around it ignored. Anything else is refused; no key
    /// is ever made up in its place.
    pub fn from_persisted(text: &str) -> (r: Result<Crypto, KeyError>)
        ensures
            match r {
                Ok(crypto) => crypto.loaded_from(text@),
                Err(e) => persisted_secret(text@) == Err::<Seq<u8>, KeyError>(e),
            },
    {
        match base64_decode(trim(text)) {
            Ok(bytes) => Crypto::from_secret_bytes(bytes.as_slice()),
            Err(_) => Err(KeyError::InvalidEncoding),
        }
    }

    /// The text under which this key pair is persisted: Base64 of the secret
    /// bytes. Read again, the text gives this key pair.
    pub fn to_persisted(&self) -> (text: String)
        ensures
            text@ == base64_text(self.secret_bytes()),
            self.loaded_from(text@),
    {
        proof {
            use_type_invariant(self);
        }
        let text = base64_encode(self.secret.as_slice());
        proof {
            lemma_trimmed_unchanged(text@);
        }
        text
    }

    /// Loads the key pair from its persisted text where there is one, and
    /// makes a new key pair where there is none. A new key pair comes with
    /// the text to persist; a text that holds no key is an error.
    pub fn load_or_create(persisted: Option<&str>) -> (r: Result<KeyMaterial, KeyError>)
        ensures
            match persisted {
                Some(text) => match r {
                    Ok(material) => material.crypto.loaded_from(text@) && material.to_persist
                        is None,
                    Err(e) => persisted_secret(text@) == Err::<Seq<u8>, KeyError>(e),
                },
                None => match r {
                    Ok(material) => {
                        &&& material.to_persist matches Some(text)
                        &&& text@ == base64_text(material.crypto.secret_bytes())
                        &&& material.crypto.loaded_from(text@)
                    },
                    Err(_) => false,
                },
            },
    {
        match persisted {
            Some(text) => match Crypto::from_persisted(text) {
                Ok(crypto) => Ok(KeyMaterial { crypto, to_persist: None }),
                Err(e) => Err(e),
            },
            None => {
                let crypto = Crypto::new();
                let text = crypto.to_persisted();
                Ok(KeyMaterial { crypto, to_persist: Some(text) })
            },
        }
    }

    /// Signs exactly the bytes given. The signature verifies under this key
    /// pair's public key.
    pub fn sign(&self, message: &[u8]) -> (signature: [u8; 64])
        ensures
            signature@ == ed25519_signature(self.secret_bytes(), message@),
            signature_valid(self.public_bytes(), message@, signature@),
    {
        proof {
            use_type_invariant(self);
        }
        sign_with(&self.secret, message)
    }

    /// The public key in lower-case hexadecimal: 64 characters.
    pub fn public_key_hex(&self) -> (text: String)
        ensures
            text@ == self.identity(),
            text@.len() == 64,
    {
        hex_encode(self.public.as_slice())
    }

    /// The public key.
    pub fn verifying_key(&self) -> (public: [u8; 32])
        ensures
            public@ == self.public_bytes(),
    {
        self.public
    }
}

/// Two key pairs loaded from the same persisted text show the same identity.
pub proof fn lemma_same_text_same_identity(first: Crypto, second: Crypto, text: Seq<char>)
    requires
        first.loaded_from(text),
        second.loaded_from(text),
    ensures
        first.identity() == second.identity(),
        first.secret_bytes() == second.secret_bytes(),
{
}

} // verus!
