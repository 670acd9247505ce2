//! The service's operations from request body to status code and response
//! body. The transport decodes requests, runs these under the registry's
//! lock, and encodes what they return.

use vstd::prelude::*;
use vstd::utf8::encode_utf8;
use crate::hex_text::hex_lower;
use crate::ids::uuid_hyphenated;
use crate::registry::{delete_outcome, register_outcome, AppState, RegistryError, User};
use crate::wire::{
    ErrorResponse, ForgetRequest, ForgetResponse, FORGOTTEN_MESSAGE, RegisterRequest,
    RegisterResponse, SignRequest, SignResponse,
};

verus! {

/// Status of a successful sign, forget or health check.
pub const STATUS_OK: u16 = 200;

/// Status of a successful registration.
pub const STATUS_CREATED: u16 = 201;

/// Status of a sign for an identifier that is malformed or not live.
pub const STATUS_NOT_FOUND: u16 = 404;

/// Status of a registration into a full registry.
pub const STATUS_SERVICE_UNAVAILABLE: u16 = 503;

/// The text that introduces a failed registration.
pub const REGISTRATION_FAILED: &'static str = "Registration failed: ";

/// The text that introduces a failed signing.
pub const SIGNING_FAILED: &'static str = "Signing failed: ";

/// The reply to a registration with result `u`: `201` with the identifier
/// text and the hexadecimal verifying key, or `503` with the error.
pub open spec fn register_reply(
    u: Result<User, RegistryError>,
    r: (u16, Result<RegisterResponse, ErrorResponse>),
) -> bool {
    match u {
        Ok(user) => {
            &&& r.0 == STATUS_CREATED
            &&& r.1 is Ok
            &&& r.1->Ok_0.user_id@ == uuid_hyphenated(user.id)
            &&& r.1->Ok_0.verifying_key@ == hex_lower(user.verifying_key@)
        },
        Err(e) => {
            &&& r.0 == STATUS_SERVICE_UNAVAILABLE
            &&& r.1 is Err
            &&& r.1->Err_0.error@ == REGISTRATION_FAILED@ + e.spec_message()
        },
    }
}

/// Registers a user for the request's seed.
pub fn register(state: &mut AppState, req: &RegisterRequest) -> (r: (
    u16,
    Result<RegisterResponse, ErrorResponse>,
))
    requires
        old(state).wf(),
    ensures
        final(state).wf(),
        exists|u: Result<User, RegistryError>|
            register_outcome(*old(state), *final(state), req.seed@, u) && register_reply(u, r),
{
    let u = state.register_user(req.seed.as_slice());
    let r = match u {
        Ok(user) => (STATUS_CREATED, Ok(RegisterResponse::from_user(&user))),
        Err(e) => (STATUS_SERVICE_UNAVAILABLE, Err(ErrorResponse::from_error(REGISTRATION_FAILED, e))),
    };
    assert(register_outcome(*old(state), *final(state), req.seed@, u) && register_reply(u, r));
    r
}

/// Signs the request's message for the request's user: `200` with the
/// hexadecimal signature, or `404` when the identifier is malformed or not
/// live.
pub fn sign(state: &AppState, req: &SignRequest) -> (r: (u16, Result<SignResponse, ErrorResponse>))
    ensures
        match state.text_signature_for(req.user_id@, encode_utf8(req.message@)) {
            Some(sig) => {
                &&& r.0 == STATUS_OK
                &&& r.1 is Ok
                &&& r.1->Ok_0.signature@ == hex_lower(sig)
            },
            None => {
                &&& r.0 == STATUS_NOT_FOUND
                &&& r.1 is Err
                &&& r.1->Err_0.error@ == SIGNING_FAILED@ + RegistryError::NotFound.spec_message()
            },
        },
{
    match state.sign_message(req.user_id.as_str(), req.message.as_str()) {
        Ok(sig) => (STATUS_OK, Ok(SignResponse::from_signature(sig.as_slice()))),
        Err(e) => (STATUS_NOT_FOUND, Err(ErrorResponse::from_error(SIGNING_FAILED, e))),
    }
}

/// Forgets the request's user; this always succeeds with `200`.
pub fn forget(state: &mut AppState, req: &ForgetRequest) -> (r: (u16, ForgetResponse))
    requires
        old(state).wf(),
    ensures
        final(state).wf(),
        delete_outcome(*old(state), *final(state), req.user_id@),
        r.0 == STATUS_OK,
        r.1.message@ == FORGOTTEN_MESSAGE@,
{
    state.delete_user(req.user_id.as_str());
    (STATUS_OK, ForgetResponse::confirmation())
}

/// The reply to a health check.
pub fn health_check() -> (r: &'static str)
    ensures
        r@ == "OK"@,
{
    "OK"
}

} // verus!
