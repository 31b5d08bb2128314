//! Trusted boundary around the RSA and SHA-256 primitives: declarations of
//! the key types, names for the deterministic results of hashing and
//! signing, and thin wrappers whose contracts the rest of the library is
//! verified against.

use sha2::Digest;
use vstd::prelude::*;

verus! {

#[verifier::external_type_specification]
#[verifier::external_body]
pub struct ExRsaPrivateKey(rsa::RsaPrivateKey);

#[verifier::external_type_specification]
#[verifier::external_body]
pub struct ExRsaPublicKey(rsa::RsaPublicKey);

/// Relies on rsa::RsaPublicKey's derived Clone: the copy carries the same
/// modulus and exponent, so it stands for the same key.
pub assume_specification[ <rsa::RsaPublicKey as Clone>::clone ](
    k: &rsa::RsaPublicKey,
) -> (r: rsa::RsaPublicKey)
    ensures
        r == *k,
;

/// The SHA-256 digest of a byte sequence; a function of the input alone.
pub uninterp spec fn sha256_of(data: Seq<u8>) -> Seq<u8>;

/// The PKCS#1 v1.5 signature over a 32-byte digest; deterministic padding
/// makes it a function of the key and the digest alone.
pub uninterp spec fn rsa_sign_of(key: rsa::RsaPrivateKey, digest: Seq<u8>) -> Seq<u8>;

/// Whether signing a 32-byte digest under `key` succeeds; with PKCS#1 v1.5
/// and SHA-256 this depends on the key's modulus size alone.
pub uninterp spec fn rsa_sign_ok(key: rsa::RsaPrivateKey) -> bool;

/// Whether a signature checks out against a digest under a public key.
pub uninterp spec fn rsa_verify_ok(key: rsa::RsaPublicKey, digest: Seq<u8>, sig: Seq<u8>) -> bool;

/// The public key matching an RSA private key.
pub uninterp spec fn rsa_public_of(key: rsa::RsaPrivateKey) -> rsa::RsaPublicKey;

/// Whether PKCS#1 v1.5 encryption of a plaintext of the given length
/// succeeds under `key`: it fails exactly when the plaintext is longer than
/// the modulus size minus eleven bytes, a function of the length alone.
pub uninterp spec fn rsa_encrypt_ok(key: rsa::RsaPublicKey, msg_len: nat) -> bool;

/// Relies on sha2::Sha256: the digest is 32 bytes and a function of the
/// input bytes alone.
#[verifier::external_body]
pub(crate) fn sha256_digest(data: &[u8]) -> (r: Vec<u8>)
    ensures
        r@ == sha256_of(data@),
        r@.len() == 32,
{
    let mut hasher = sha2::Sha256::new();
    hasher.update(data);
    hasher.finalize().to_vec()
}

/// Relies on rsa::RsaPrivateKey::sign with Pkcs1v15Sign over SHA-256: the
/// padding is deterministic, so the signature is a function of the key and
/// the digest; it fails exactly when the modulus is too small for the
/// padded digest; and the matching public key accepts what it produced.
#[verifier::external_body]
pub(crate) fn sign_digest(key: &rsa::RsaPrivateKey, digest: &Vec<u8>) -> (r: Option<Vec<u8>>)
    requires
        digest@.len() == 32,
    ensures
        r is Some <==> rsa_sign_ok(*key),
        r matches Some(s) ==> s@ == rsa_sign_of(*key, digest@),
        r matches Some(s) ==> rsa_verify_ok(rsa_public_of(*key), digest@, s@),
{
    key.sign(rsa::pkcs1v15::Pkcs1v15Sign::new::<sha2::Sha256>(), digest).ok()
}

/// Relies on rsa::RsaPublicKey::verify with Pkcs1v15Sign over SHA-256: it
/// returns a Result and never panics, and its outcome is a function of the
/// key, the digest and the signature.
#[verifier::external_body]
pub(crate) fn verify_digest(key: &rsa::RsaPublicKey, digest: &Vec<u8>, sig: &[u8]) -> (r: bool)
    ensures
        r == rsa_verify_ok(*key, digest@, sig@),
{
    key.verify(rsa::pkcs1v15::Pkcs1v15Sign::new::<sha2::Sha256>(), digest, sig).is_ok()
}

/// Relies on rsa::RsaPublicKey::encrypt with Pkcs1v15Encrypt and operating
/// system randomness: it fails exactly when the plaintext is too long for
/// the key; the padding is randomized, so nothing is stated of the
/// ciphertext bytes.
#[verifier::external_body]
pub(crate) fn encrypt_field(key: &rsa::RsaPublicKey, msg: &[u8]) -> (r: Option<Vec<u8>>)
    ensures
        r is Some <==> rsa_encrypt_ok(*key, msg@.len()),
{
    key.encrypt(&mut rand::rngs::OsRng, rsa::pkcs1v15::Pkcs1v15Encrypt, msg).ok()
}

} // verus!
