//! secp256k1 keys and signatures, made and checked by cylinder.
//!
//! A signing key is held as the bytes of its private key.  What cylinder computes from keys,
//! messages and signatures is named here: each name stands for the result of one cylinder
//! call, which depends on its arguments alone (secp256k1 signing derives its nonce from the
//! key and the message).
use vstd::prelude::*;

use cylinder::secp256k1::Secp256k1Context;
use cylinder::{Context, Signer, Verifier};

verus! {

/// The public key that belongs to the secp256k1 private key `private_key`, or `None` when
/// `private_key` is not a secp256k1 private key.
pub uninterp spec fn secp256k1_public_key(private_key: Seq<u8>) -> Option<Seq<u8>>;

/// The signature of `message` made with the secp256k1 private key `private_key`.
pub uninterp spec fn secp256k1_signature(private_key: Seq<u8>, message: Seq<u8>) -> Seq<u8>;

/// Whether `signature` is a valid signature of `message` for `public_key`, or `None` when
/// the signature or the key cannot be read.
pub uninterp spec fn secp256k1_verification(message: Seq<u8>, signature: Seq<u8>, public_key: Seq<u8>) -> Option<
    bool,
>;

/// `Signer::public_key` of the signer that cylinder's `Secp256k1Context::new_signer` makes
/// for `private_key`: the key's public key in compressed form, or an error when the bytes
/// are not a secp256k1 private key.
#[verifier::external_body]
pub(crate) fn secp256k1_public_key_of(private_key: &[u8]) -> (r: Result<Vec<u8>, String>)
    ensures
        match r {
            Ok(k) => secp256k1_public_key(private_key@) == Some(k@),
            Err(_) => secp256k1_public_key(private_key@) is None,
        },
{
    let signer = Secp256k1Context::new().new_signer(cylinder::PrivateKey::new(private_key.to_vec()));
    match signer.public_key() {
        Ok(k) => Ok(k.into_bytes()),
        Err(e) => Err(e.to_string()),
    }
}

/// `Signer::sign` of the signer that cylinder's `Secp256k1Context::new_signer` makes for
/// `private_key`: the compact signature of the SHA-256 hash of `message`.  It fails exactly
/// when the bytes are not a secp256k1 private key, as `Signer::public_key` does: both read
/// the key with `SecretKey::from_slice` and nothing else of theirs can fail.
#[verifier::external_body]
pub(crate) fn secp256k1_sign(private_key: &[u8], message: &[u8]) -> (r: Result<Vec<u8>, String>)
    ensures
        r is Ok <==> secp256k1_public_key(private_key@) is Some,
        r matches Ok(sig) ==> sig@ == secp256k1_signature(private_key@, message@),
{
    let signer = Secp256k1Context::new().new_signer(cylinder::PrivateKey::new(private_key.to_vec()));
    match signer.sign(message) {
        Ok(s) => Ok(s.take_bytes()),
        Err(e) => Err(e.to_string()),
    }
}

/// `Verifier::verify` of cylinder's secp256k1 verifier: whether `signature` is a valid
/// signature of `message` for `public_key`, or an error when the signature or the key
/// cannot be read.
#[verifier::external_body]
pub(crate) fn secp256k1_verify(message: &[u8], signature: &[u8], public_key: &[u8]) -> (r: Result<bool, String>)
    ensures
        match r {
            Ok(v) => secp256k1_verification(message@, signature@, public_key@) == Some(v),
            Err(_) => secp256k1_verification(message@, signature@, public_key@) is None,
        },
{
    let verifier = Secp256k1Context::new().new_verifier();
    match verifier.verify(
        message,
        &cylinder::Signature::new(signature.to_vec()),
        &cylinder::PublicKey::new(public_key.to_vec()),
    ) {
        Ok(v) => Ok(v),
        Err(e) => Err(e.to_string()),
    }
}

/// A secp256k1 signing key, held as the bytes of its private key.
pub struct SigningKey {
    private_key: Vec<u8>,
}

impl SigningKey {
    /// The bytes of the private key.
    pub closed spec fn spec_private_key(&self) -> Seq<u8> {
        self.private_key@
    }

    /// The signing key with private key `private_key`.
    pub fn new(private_key: Vec<u8>) -> (k: Self)
        ensures
            k.spec_private_key() == private_key@,
    {
        SigningKey { private_key }
    }

    /// The bytes of the private key.
    pub fn private_key(&self) -> (b: &[u8])
        ensures
            b@ == self.spec_private_key(),
    {
        self.private_key.as_slice()
    }
}

impl Clone for SigningKey {
    fn clone(&self) -> (k: Self)
        ensures
            k.spec_private_key() == self.spec_private_key(),
    {
        SigningKey { private_key: self.private_key.clone() }
    }
}

/// Checks secp256k1 signatures.
pub struct SignatureVerifier;

impl SignatureVerifier {
    pub fn new() -> (v: Self) {
        SignatureVerifier
    }

    /// Whether `signature` is a valid signature of `message` for `public_key`; an error with
    /// the reason when the signature or the key cannot be read.
    pub fn verify(&self, message: &[u8], signature: &[u8], public_key: &[u8]) -> (r: Result<bool, String>)
        ensures
            match r {
                Ok(v) => secp256k1_verification(message@, signature@, public_key@) == Some(v),
                Err(_) => secp256k1_verification(message@, signature@, public_key@) is None,
            },
    {
        secp256k1_verify(message, signature, public_key)
    }
}

} // verus!
