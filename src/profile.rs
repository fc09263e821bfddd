//! The signed-in user's GitHub profile, and the decisions around fetching it:
//! which tokens may be sent, what the request carries, and what the answer's
//! status means.

use crate::config::GITHUB_USER_API_URL;
use crate::error::Error;
use oauth2::basic::BasicTokenType;
use vstd::prelude::*;

verus! {

/// Largest count of nanoseconds past a second, plus one: a leap second runs
/// past 999,999,999 up to 1,999,999,999.
pub const NANOS_LIMIT: u32 = 2_000_000_000;

/// An instant in UTC: whole seconds since the Unix epoch and the nanoseconds
/// past that second.
#[derive(Clone, Copy, Debug, PartialEq, Eq, Hash)]
pub struct Timestamp {
    pub seconds: i64,
    pub nanoseconds: u32,
}

impl Timestamp {
    /// The nanoseconds stay within a second, a leap second included.
    pub open spec fn wf(&self) -> bool {
        self.nanoseconds < NANOS_LIMIT
    }

    /// The instant from its parts; `None` when the nanoseconds reach two
    /// seconds.
    pub fn from_parts(seconds: i64, nanoseconds: u32) -> (r: Option<Timestamp>)
        ensures
            r is Some <==> nanoseconds < NANOS_LIMIT,
            r matches Some(t) ==> t.wf() && t.seconds == seconds && t.nanoseconds == nanoseconds,
    {
        if nanoseconds < NANOS_LIMIT {
            Some(Timestamp { seconds, nanoseconds })
        } else {
            None
        }
    }
}

/// The simple profile of a GitHub user.
#[derive(Debug, Clone, Hash, Eq, PartialEq)]
pub struct GitHubUser {
    pub name: Option<String>,
    pub email: Option<String>,
    pub login: String,
    pub id: u64,
    pub node_id: String,
    pub avatar_url: url::Url,
    pub gravatar_id: String,
    pub url: url::Url,
    pub html_url: url::Url,
    pub followers_url: url::Url,
    pub following_url: url::Url,
    pub gists_url: url::Url,
    pub starred_url: url::Url,
    pub subscriptions_url: url::Url,
    pub organizations_url: url::Url,
    pub repos_url: url::Url,
    pub events_url: url::Url,
    pub received_events_url: url::Url,
    /// The account type ("User", "Organization"), `type` in GitHub's JSON.
    pub account_type: String,
    pub site_admin: bool,
    pub starred_at: Option<Timestamp>,
}

impl GitHubUser {
    /// The starring time, where there is one, is a well-formed instant.
    pub open spec fn wf(&self) -> bool {
        self.starred_at matches Some(t) ==> t.wf()
    }
}

/// What the token endpoint issued, as far as the profile fetch needs it.
pub struct IssuedToken {
    pub token_type: BasicTokenType,
    pub access_token: String,
}

/// The profile request to send: a GET of `url` with the given
/// `Authorization` header value.
#[derive(Clone, Debug, PartialEq, Eq)]
pub struct ProfileRequest {
    pub url: String,
    pub authorization: String,
}

/// `Authorization` header value for a bearer token.
pub open spec fn bearer_header(access_token: Seq<char>) -> Seq<char> {
    "Bearer "@ + access_token
}

/// `r` is the request for the profile with the given access token.
pub open spec fn is_profile_request(r: ProfileRequest, access_token: Seq<char>) -> bool {
    &&& r.url@ == GITHUB_USER_API_URL@
    &&& r.authorization@ == bearer_header(access_token)
}

/// What a profile response's HTTP status means: 200 lets the body be read,
/// 401 is an authentication failure, anything else a failed request.
pub open spec fn status_outcome(status: u16) -> Result<(), Error> {
    if status == 200 {
        Ok(())
    } else if status == 401 {
        Err(Error::Authentication)
    } else {
        Err(Error::ProfileRequest)
    }
}

/// The profile request for an issued token. Only a bearer token may be sent;
/// any other type is refused here, before a request exists.
pub fn profile_request(token: &IssuedToken) -> (r: Result<ProfileRequest, Error>)
    ensures
        r is Ok <==> token.token_type is Bearer,
        r matches Ok(p) ==> is_profile_request(p, token.access_token@),
        r matches Err(e) ==> e == Error::UnsupportedTokenType,
{
    match token.token_type {
        BasicTokenType::Bearer => {
            let authorization = String::from_str("Bearer ").concat(token.access_token.as_str());
            proof {
                reveal_strlit("Bearer ");
            }
            Ok(ProfileRequest { url: String::from_str(GITHUB_USER_API_URL), authorization })
        },
        _ => Err(Error::UnsupportedTokenType),
    }
}

/// Checks the status of the profile response.
pub fn check_profile_status(status: u16) -> (r: Result<(), Error>)
    ensures
        r == status_outcome(status),
{
    if status == 200 {
        Ok(())
    } else if status == 401 {
        Err(Error::Authentication)
    } else {
        Err(Error::ProfileRequest)
    }
}

} // verus!
