//! Credential verification: the checks and response shapes around the
//! external credential-check collaborator. An empty username or password
//! is a client error before any delegation occurs; the collaborator's
//! verdict is mapped to the response here.

use vstd::prelude::*;
use crate::models::{VerifyPremiumRequest, VerifyPremiumResponse};

verus! {

/// The request lacks usable credentials: a field is missing or empty.
pub open spec fn credentials_missing(r: VerifyPremiumRequest) -> bool {
    ||| r.username is None
    ||| r.username->0@.len() == 0
    ||| r.password is None
    ||| r.password->0@.len() == 0
}

/// What the external credential check reported.
pub enum CredentialVerdict {
    /// The check ran and the credentials were accepted.
    Accepted,
    /// The check ran and refused the credentials.
    Rejected,
    /// The check itself could not be run.
    ToolFailure { detail: String },
}

/// Extracts the credentials, refusing a request with a missing or empty
/// field before any delegation: the refusal is a client error, status 400.
pub fn extract_credentials(req: VerifyPremiumRequest) -> (r: Result<
    (String, String),
    (VerifyPremiumResponse, u16),
>)
    ensures
        credentials_missing(req) <==> r is Err,
        r matches Err(e) ==> (!e.0.success && e.0.error is Some && e.0.is_premium is None
            && e.0.message is None && e.1 == 400),
        r matches Ok(c) ==> (req.username matches Some(u) && c.0@ == u@)
            && (req.password matches Some(p) && c.1@ == p@),
{
    let refused: (VerifyPremiumResponse, u16) = (
        VerifyPremiumResponse {
            success: false,
            is_premium: None,
            message: None,
            error: Some(String::from_str("Missing login credentials")),
        },
        400,
    );
    let username = match req.username {
        Some(u) => u,
        None => {
            return Err(refused);
        },
    };
    if username.as_str().unicode_len() == 0 {
        return Err(refused);
    }
    let password = match req.password {
        Some(p) => p,
        None => {
            return Err(refused);
        },
    };
    if password.as_str().unicode_len() == 0 {
        return Err(refused);
    }
    Ok((username, password))
}

/// Maps the collaborator's verdict to the response and its status:
/// accepted and rejected credentials both answer 200 — the request itself
/// succeeded — while a check that could not run is a server error.
pub fn verdict_response(verdict: CredentialVerdict) -> (r: (VerifyPremiumResponse, u16))
    ensures
        r.0.is_premium is None,
        verdict is Accepted ==> (r.0.success && r.0.message is Some && r.0.error is None && r.1
            == 200),
        verdict is Rejected ==> (!r.0.success && r.0.message is None && r.0.error is Some && r.1
            == 200),
        verdict matches CredentialVerdict::ToolFailure { detail } ==> (!r.0.success
            && r.0.message is None && r.0.error == Some(detail) && r.1 == 500),
{
    match verdict {
        CredentialVerdict::Accepted => (
            VerifyPremiumResponse {
                success: true,
                is_premium: None,
                message: Some(
                    String::from_str("Credentials are valid (premium status unknown)"),
                ),
                error: None,
            },
            200,
        ),
        CredentialVerdict::Rejected => (
            VerifyPremiumResponse {
                success: false,
                is_premium: None,
                message: None,
                error: Some(String::from_str("Invalid login credentials")),
            },
            200,
        ),
        CredentialVerdict::ToolFailure { detail } => (
            VerifyPremiumResponse {
                success: false,
                is_premium: None,
                message: None,
                error: Some(detail),
            },
            500,
        ),
    }
}

} // verus!
