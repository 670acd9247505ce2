//! A signing-key registry: keys are derived from caller seeds under a
//! master secret, stored under freshly drawn identifiers, and used to
//! produce Ed25519 signatures until the identifier is forgotten.

pub mod hex_text;
pub mod crypto;
pub mod derivation;
pub mod ids;
pub mod registry;
pub mod laws;
pub mod wire;
pub mod handlers;
