use vstd::prelude::*;

verus! {

/// Why a sign-in callback did not complete.
#[derive(Clone, Copy, Debug, PartialEq, Eq, Structural)]
pub enum Error {
    /// The profile endpoint answered 401 Unauthorized.
    Authentication,
    /// The issued token is not a bearer token; no profile request was sent.
    UnsupportedTokenType,
    /// The profile request could not be sent, or was answered with a status
    /// other than 200 or 401.
    ProfileRequest,
    /// The profile body is not a well-formed user profile.
    ProfileParse,
    /// No verifier is stored under the callback's state token, or the store
    /// could not be reached.
    VerifierLookup,
    /// The token endpoint refused the code, or could not be reached.
    TokenExchange,
    /// A step of the callback was handed an answer to work it had not asked for.
    OutOfOrder,
}

impl Error {
    /// The message that goes with the error in an HTTP error response.
    pub fn message(&self) -> (r: &'static str)
        ensures
            *self == Error::Authentication ==> r@ == "Authentication failed"@,
            *self == Error::UnsupportedTokenType ==> r@ == "Unsupported token type"@,
            *self == Error::ProfileRequest ==> r@ == "Failed to get user info from Github"@,
            *self == Error::ProfileParse ==> r@ == "Failed to parse user info from Github"@,
            *self == Error::VerifierLookup ==> r@ == "No PKCE verifier stored for this state"@,
            *self == Error::TokenExchange ==> r@ == "Failed to exchange the authorization code"@,
            *self == Error::OutOfOrder ==> r@ == "Callback step out of order"@,
    {
        match self {
            Error::Authentication => "Authentication failed",
            Error::UnsupportedTokenType => "Unsupported token type",
            Error::ProfileRequest => "Failed to get user info from Github",
            Error::ProfileParse => "Failed to parse user info from Github",
            Error::VerifierLookup => "No PKCE verifier stored for this state",
            Error::TokenExchange => "Failed to exchange the authorization code",
            Error::OutOfOrder => "Callback step out of order",
        }
    }

    /// The HTTP status of the error response: 401 for an authentication
    /// failure, 400 for an unknown state token, 500 for a step out of order,
    /// 502 for the provider's failures.
    pub fn status(&self) -> (r: u16)
        ensures
            *self == Error::Authentication ==> r == 401,
            *self == Error::VerifierLookup ==> r == 400,
            *self == Error::OutOfOrder ==> r == 500,
            *self != Error::Authentication && *self != Error::VerifierLookup && *self
                != Error::OutOfOrder ==> r == 502,
    {
        match self {
            Error::Authentication => 401,
            Error::VerifierLookup => 400,
            Error::OutOfOrder => 500,
            _ => 502,
        }
    }
}

} // verus!
