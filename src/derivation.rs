//! Key derivation: a seed and the master secret determine a signing key.

use vstd::prelude::*;
use vstd::string::StringSliceAdditionalSpecFns;
use crate::crypto::{ed25519_public_key, hkdf_sha256_expand32, hkdf_sha256_okm32, ed25519_verifying_key};

verus! {

/// The context label every derivation expands with.
pub const DERIVATION_LABEL: &'static str = "signing-registry ed25519 signing key v1";

/// The secret key that `seed` yields under `master`: HKDF-SHA-256 with the
/// master secret as salt, the seed as input key material and the fixed
/// label as context.
pub open spec fn derived_secret(master: Seq<u8>, seed: Seq<u8>) -> Seq<u8> {
    hkdf_sha256_okm32(master, seed, DERIVATION_LABEL.spec_bytes())
}

/// The verifying key that belongs to the key `seed` yields under `master`.
pub open spec fn derived_public(master: Seq<u8>, seed: Seq<u8>) -> Seq<u8> {
    ed25519_public_key(derived_secret(master, seed))
}

/// Derives signing keys from seeds under one master secret.
pub struct KeyDerivation {
    master_secret: Vec<u8>,
}

impl KeyDerivation {
    /// The master secret every derivation uses as its salt.
    pub closed spec fn master(&self) -> Seq<u8> {
        self.master_secret@
    }

    /// A derivation under the given master secret.
    pub fn new(master_secret: Vec<u8>) -> (r: KeyDerivation)
        ensures
            r.master() == master_secret@,
    {
        KeyDerivation { master_secret }
    }

    /// The 32-byte secret key for `seed`.
    pub fn derive(&self, seed: &[u8]) -> (r: [u8; 32])
        ensures
            r@ == derived_secret(self.master(), seed@),
    {
        hkdf_sha256_expand32(self.master_secret.as_slice(), seed, DERIVATION_LABEL.as_bytes()).unwrap()
    }

    /// The verifying key that belongs to the secret key for `seed`.
    pub fn verifying_key(&self, seed: &[u8]) -> (r: [u8; 32])
        ensures
            r@ == derived_public(self.master(), seed@),
    {
        let secret = self.derive(seed);
        ed25519_verifying_key(&secret)
    }
}

/// Derivation is deterministic: one master secret and equal seeds give the
/// same signing key and the same verifying key.
pub proof fn lemma_derivation_deterministic(master: Seq<u8>, seed1: Seq<u8>, seed2: Seq<u8>)
    requires
        seed1 == seed2,
    ensures
        derived_secret(master, seed1) == derived_secret(master, seed2),
        derived_public(master, seed1) == derived_public(master, seed2),
{
}

} // verus!
