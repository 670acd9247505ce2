//! The request and response bodies of the service, and how responses are
//! built from registry results.

use vstd::prelude::*;
use crate::hex_text::{encode_hex, hex_lower};
use crate::ids::{user_id_text, uuid_hyphenated};
use crate::registry::{RegistryError, User};

verus! {

/// The text of a successful forget.
pub const FORGOTTEN_MESSAGE: &'static str = "User successfully forgotten";

/// Request to register a new user and generate a signing key.
#[derive(Debug, Clone)]
pub struct RegisterRequest {
    pub seed: Vec<u8>,
}

/// Response after a successful registration.
#[derive(Debug)]
pub struct RegisterResponse {
    pub user_id: String,
    pub verifying_key: String,
}

/// Request to sign a message.
#[derive(Debug, Clone)]
pub struct SignRequest {
    pub user_id: String,
    pub message: String,
}

/// Response with the signature.
#[derive(Debug)]
pub struct SignResponse {
    pub signature: String,
}

/// Request to forget a user.
#[derive(Debug)]
pub struct ForgetRequest {
    pub user_id: String,
}

/// Response after forgetting a user.
#[derive(Debug)]
pub struct ForgetResponse {
    pub message: String,
}

/// Error response.
#[derive(Debug)]
pub struct ErrorResponse {
    pub error: String,
}

impl RegistryError {
    /// The words that describe the error.
    pub open spec fn spec_message(self) -> Seq<char> {
        match self {
            RegistryError::NotFound => "User not found"@,
            RegistryError::CapacityExceeded => "User capacity exceeded"@,
        }
    }

    /// The words that describe the error.
    pub fn message(&self) -> (r: String)
        ensures
            r@ == self.spec_message(),
    {
        match self {
            RegistryError::NotFound => "User not found".to_string(),
            RegistryError::CapacityExceeded => "User capacity exceeded".to_string(),
        }
    }
}

impl RegisterResponse {
    /// The identifier text and the hexadecimal verifying key of `user`.
    pub fn from_user(user: &User) -> (r: RegisterResponse)
        ensures
            r.user_id@ == uuid_hyphenated(user.id),
            r.verifying_key@ == hex_lower(user.verifying_key@),
    {
        RegisterResponse {
            user_id: user_id_text(user.id),
            verifying_key: encode_hex(user.verifying_key.as_slice()),
        }
    }
}

impl SignResponse {
    /// The hexadecimal text of `signature`.
    pub fn from_signature(signature: &[u8]) -> (r: SignResponse)
        ensures
            r.signature@ == hex_lower(signature@),
    {
        SignResponse { signature: encode_hex(signature) }
    }
}

impl ForgetResponse {
    /// The confirmation that a forget succeeded.
    pub fn confirmation() -> (r: ForgetResponse)
        ensures
            r.message@ == FORGOTTEN_MESSAGE@,
    {
        ForgetResponse { message: FORGOTTEN_MESSAGE.to_string() }
    }
}

impl ErrorResponse {
    /// The error `e`, introduced by `context`.
    pub fn from_error(context: &str, e: RegistryError) -> (r: ErrorResponse)
        ensures
            r.error@ == context@ + e.spec_message(),
    {
        let mut error = context.to_string();
        error.append(e.message().as_str());
        ErrorResponse { error }
    }
}

} // verus!
