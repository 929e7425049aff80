//! Asymmetric keypairs and detached signatures over canonical bytes,
//! backed by the Ed25519 implementation of the `ed25519_dalek` crate.

use vstd::prelude::*;
use crate::DecodeError;
use ed25519_dalek::Signer;
use ed25519_dalek::Verifier;

verus! {

/// Length of an Ed25519 secret key, in bytes.
pub const SECRET_KEY_LEN: usize = 32;

/// Length of an Ed25519 public key, in bytes.
pub const PUBLIC_KEY_LEN: usize = 32;

/// Length of an Ed25519 signature, in bytes.
pub const SIGNATURE_LEN: usize = 64;

/// The public key that Ed25519 derives from a 32-byte secret key.
pub uninterp spec fn ed_public_of(secret: Seq<u8>) -> Seq<u8>;

/// The signature that Ed25519 produces from a secret key and a message.
/// Ed25519 signing is deterministic: the signature is a function of the
/// secret key and the message alone.
pub uninterp spec fn ed_signature_of(secret: Seq<u8>, msg: Seq<u8>) -> Seq<u8>;

/// Whether Ed25519 verification accepts `sig` as a signature on `msg`
/// under the 32-byte public key `public`.
pub uninterp spec fn ed_verifies(public: Seq<u8>, msg: Seq<u8>, sig: Seq<u8>) -> bool;

/// Relies on ed25519_dalek::SigningKey::generate with the operating
/// system's entropy source: a fresh 32-byte secret key. The result is
/// random, so nothing more is promised of it.
#[verifier::external_body]
pub(crate) fn ed_generate_secret() -> (r: Vec<u8>)
    ensures
        r@.len() == SECRET_KEY_LEN,
{
    let signing_key = ed25519_dalek::SigningKey::generate(&mut rand::rngs::OsRng);
    signing_key.to_bytes().to_vec()
}

/// Relies on ed25519_dalek::SigningKey::verifying_key: the 32-byte public
/// key, a function of the secret key bytes alone.
#[verifier::external_body]
pub(crate) fn ed_public_key(secret: &Vec<u8>) -> (r: Vec<u8>)
    requires
        secret@.len() == SECRET_KEY_LEN,
    ensures
        r@ == ed_public_of(secret@),
        r@.len() == PUBLIC_KEY_LEN,
{
    let secret_key: [u8; 32] = secret.as_slice().try_into().unwrap();
    let signing_key = ed25519_dalek::SigningKey::from_bytes(&secret_key);
    signing_key.verifying_key().to_bytes().to_vec()
}

/// Relies on ed25519_dalek::Signer::sign for SigningKey: a 64-byte
/// deterministic signature over the message, which VerifyingKey::verify
/// accepts under the public key derived from the same secret key.
#[verifier::external_body]
pub(crate) fn ed_sign(secret: &Vec<u8>, msg: &Vec<u8>) -> (r: Vec<u8>)
    requires
        secret@.len() == SECRET_KEY_LEN,
    ensures
        r@ == ed_signature_of(secret@, msg@),
        r@.len() == SIGNATURE_LEN,
        ed_verifies(ed_public_of(secret@), msg@, r@),
{
    let secret_key: [u8; 32] = secret.as_slice().try_into().unwrap();
    let signing_key = ed25519_dalek::SigningKey::from_bytes(&secret_key);
    signing_key.sign(msg.as_slice()).to_bytes().to_vec()
}

/// Relies on ed25519_dalek::VerifyingKey::verify: whether the signature
/// bytes parse and verify over the message under the given public key.
/// A structurally malformed signature, or a public key that is not a
/// valid curve point, is reported as not verifying, never as a fault.
#[verifier::external_body]
pub(crate) fn ed_verify(public: &Vec<u8>, msg: &Vec<u8>, sig: &Vec<u8>) -> (r: bool)
    requires
        public@.len() == PUBLIC_KEY_LEN,
    ensures
        r == ed_verifies(public@, msg@, sig@),
{
    let public_key: [u8; 32] = public.as_slice().try_into().unwrap();
    let verifying_key = match ed25519_dalek::VerifyingKey::from_bytes(&public_key) {
        Ok(k) => k,
        Err(_) => return false,
    };
    let signature = match ed25519_dalek::Signature::from_slice(sig.as_slice()) {
        Ok(s) => s,
        Err(_) => return false,
    };
    verifying_key.verify(msg.as_slice(), &signature).is_ok()
}

/// An Ed25519 keypair: the secret key together with the public key
/// derived from it. The secret half is never embedded in an Identity;
/// it is handed back to the caller, who is responsible for keeping it.
pub struct Keypair {
    pub secret: Vec<u8>,
    pub public: Vec<u8>,
}

impl Keypair {
    /// Both halves have their fixed Ed25519 width.
    pub open spec fn wf(self) -> bool {
        self.secret@.len() == SECRET_KEY_LEN && self.public@.len() == PUBLIC_KEY_LEN
    }

    /// The public half is the one Ed25519 derives from the secret half.
    pub open spec fn consistent(self) -> bool {
        self.public@ == ed_public_of(self.secret@)
    }

    /// Generates a fresh keypair from the operating system's entropy.
    pub fn generate() -> (r: Keypair)
        ensures
            r.wf(),
            r.consistent(),
    {
        let secret = ed_generate_secret();
        let public = ed_public_key(&secret);
        Keypair { secret, public }
    }

    /// Serializes the keypair as secret key bytes followed by public key
    /// bytes: the raw fixed-length byte pair the key store holds.
    pub fn to_bytes(&self) -> (r: Vec<u8>)
        ensures
            r@ == self.secret@ + self.public@,
    {
        let mut out: Vec<u8> = Vec::new();
        crate::bytes::append_bytes(&mut out, &self.secret);
        crate::bytes::append_bytes(&mut out, &self.public);
        out
    }

    /// Reads a keypair back from the raw 64-byte pair. Any other length
    /// fails to decode: the stored bytes are corrupted or foreign.
    pub fn from_bytes(bytes: &Vec<u8>) -> (r: Result<Keypair, DecodeError>)
        ensures
            match r {
                Ok(kp) => {
                    &&& bytes@.len() == SECRET_KEY_LEN + PUBLIC_KEY_LEN
                    &&& kp.wf()
                    &&& kp.secret@ == bytes@.subrange(0, SECRET_KEY_LEN as int)
                    &&& kp.public@ == bytes@.subrange(
                        SECRET_KEY_LEN as int,
                        (SECRET_KEY_LEN + PUBLIC_KEY_LEN) as int,
                    )
                },
                Err(_) => bytes@.len() != SECRET_KEY_LEN + PUBLIC_KEY_LEN,
            },
    {
        if bytes.len() != SECRET_KEY_LEN + PUBLIC_KEY_LEN {
            return Err(DecodeError::Malformed);
        }
        let secret = crate::bytes::bytes_range(bytes, 0, SECRET_KEY_LEN);
        let public = crate::bytes::bytes_range(bytes, SECRET_KEY_LEN, SECRET_KEY_LEN + PUBLIC_KEY_LEN);
        Ok(Keypair { secret, public })
    }
}

} // verus!
