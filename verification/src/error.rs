//! Error taxonomy for the client: transport and parse failures surfaced by the
//! caller's transport layer, plus the authentication-specific failures that the
//! core state machine itself decides.

use vstd::prelude::*;

verus! {

/// The server offered a two-factor method other than the single supported one.
#[derive(Clone, Debug)]
pub struct UnknownAuthenticationMethod;

impl UnknownAuthenticationMethod {
    /// Human-readable description of the failure.
    pub fn message(&self) -> (r: String)
        ensures
            r@ == "can not handle authentication method"@,
    {
        String::from_str("can not handle authentication method")
    }
}

/// An authorized operation was attempted before a successful authentication.
#[derive(Clone, Debug)]
pub struct NotAuthenticatedError;

impl NotAuthenticatedError {
    /// Human-readable description of the failure.
    pub fn message(&self) -> (r: String)
        ensures
            r@ == "not authorized"@,
    {
        String::from_str("not authorized")
    }
}

/// Every failure a request can end in. Transport and parse failures carry the
/// underlying error rendered as text by the transport layer; the remaining
/// variants are decided by the core itself and carry nothing.
#[derive(Debug)]
pub enum RequestError {
    /// Underlying network/HTTP failure; never retried by the core.
    WebRequestError(String),
    /// The response body did not match the expected JSON shape.
    ParseError(String),
    /// An authorized operation was attempted on an unauthenticated client.
    NotAuthenticatedError(),
    /// The credentials step declared a two-factor method this flow does not implement.
    UnknownAuthenticationMethod(),
    /// The one-time-code response lacked the mandatory security-token header.
    MissingSecurityToken(),
}

impl RequestError {
    /// Human-readable description of the failure.
    pub fn message(&self) -> (r: String)
        ensures
            r@ == match self {
                RequestError::WebRequestError(m) => m@,
                RequestError::ParseError(m) => m@,
                RequestError::NotAuthenticatedError() => "not authorized"@,
                RequestError::UnknownAuthenticationMethod() => "can not handle authentication method"@,
                RequestError::MissingSecurityToken() => "missing x-securitytoken header"@,
            },
    {
        match self {
            RequestError::WebRequestError(m) => m.clone(),
            RequestError::ParseError(m) => m.clone(),
            RequestError::NotAuthenticatedError() => String::from_str("not authorized"),
            RequestError::UnknownAuthenticationMethod() => String::from_str(
                "can not handle authentication method",
            ),
            RequestError::MissingSecurityToken() => String::from_str(
                "missing x-securitytoken header",
            ),
        }
    }
}

} // verus!
