//! The cryptographic primitives the registry builds on: HKDF-SHA-256 for
//! key derivation and Ed25519 for key pairs and signatures.

use vstd::prelude::*;

verus! {

/// The 32 bytes of output key material that HKDF-SHA-256 yields for a
/// salt, input key material and context label.
pub uninterp spec fn hkdf_sha256_okm32(salt: Seq<u8>, ikm: Seq<u8>, info: Seq<u8>) -> Seq<u8>;

/// The Ed25519 verifying key that belongs to a 32-byte secret key.
pub uninterp spec fn ed25519_public_key(secret: Seq<u8>) -> Seq<u8>;

/// The Ed25519 signature of a message under a 32-byte secret key.
pub uninterp spec fn ed25519_signature(secret: Seq<u8>, message: Seq<u8>) -> Seq<u8>;

/// Relies on `rand::random`: a value drawn from the thread-local generator,
/// seeded by the operating system. Nothing is promised of the value.
pub assume_specification<T>[ rand::random::<T> ]() -> (r: T)
    where
        rand::distributions::Standard: rand::distributions::Distribution<T>,
;

#[verifier::external_type_specification]
#[verifier::external_body]
pub struct ExInvalidLength(hkdf::InvalidLength);

/// Relies on `hkdf::Hkdf::<sha2::Sha256>::new` (extract under the salt) and
/// `Hkdf::expand` (expand with the label): expand fails only when asked for
/// more than 255 hash lengths, so 32 bytes always come back, and they depend
/// on the three inputs alone.
#[verifier::external_body]
pub(crate) fn hkdf_sha256_expand32(salt: &[u8], ikm: &[u8], info: &[u8]) -> (r: Result<
    [u8; 32],
    hkdf::InvalidLength,
>)
    ensures
        r is Ok,
        r matches Ok(okm) ==> okm@ == hkdf_sha256_okm32(salt@, ikm@, info@),
{
    let mut okm = [0u8; 32];
    hkdf::Hkdf::<sha2::Sha256>::new(Some(salt), ikm).expand(info, &mut okm).map(|()| okm)
}

/// Relies on `ed25519_dalek::SigningKey::verifying_key`: the public key is a
/// function of the secret key bytes alone.
#[verifier::external_body]
pub(crate) fn ed25519_verifying_key(secret: &[u8; 32]) -> (r: [u8; 32])
    ensures
        r@ == ed25519_public_key(secret@),
{
    ed25519_dalek::SigningKey::from_bytes(secret).verifying_key().to_bytes()
}

/// Relies on `ed25519_dalek::SigningKey::sign`: Ed25519 signing is
/// deterministic, so the 64 bytes depend on the secret key and the message
/// alone.
#[verifier::external_body]
pub(crate) fn ed25519_sign(secret: &[u8; 32], message: &[u8]) -> (r: [u8; 64])
    ensures
        r@ == ed25519_signature(secret@, message@),
{
    ed25519_dalek::Signer::sign(&ed25519_dalek::SigningKey::from_bytes(secret), message).to_bytes()
}

} // verus!
