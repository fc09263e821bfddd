//! The callback that the provider redirects to, as a state machine: look up
//! the verifier under the state token, exchange the code, fetch the profile.
//! Each step takes what the outside work answered and says what to do next;
//! the caller performs that work and hands back the answer.

use crate::authorize::store_get;
use crate::error::Error;
use crate::profile::{
    check_profile_status, is_profile_request, profile_request, status_outcome, GitHubUser,
    IssuedToken, ProfileRequest,
};
use vstd::prelude::*;

verus! {

/// The query of the callback: the authorization code and the CSRF state token.
pub struct CallbackQuery {
    pub code: String,
    pub state: String,
}

/// Where a callback stands.
pub enum CallbackState {
    /// The verifier stored under the state token is being looked up.
    AwaitingVerifier { code: String },
    /// The code and verifier are being exchanged for a token.
    AwaitingToken,
    /// The profile request has been sent.
    AwaitingProfileStatus,
    /// The profile answered 200 and its body is being parsed.
    AwaitingProfileBody,
    /// The callback has succeeded or failed.
    Finished,
}

/// The answer of the outside work that a step asked for.
pub enum CallbackEvent {
    /// The store's answer to `GET state`: `None` when the key is absent or the
    /// store could not be reached.
    VerifierLookedUp(Option<String>),
    /// The token endpoint's answer: `None` when the exchange failed.
    TokenExchanged(Option<IssuedToken>),
    /// The profile response's status: `None` when the request failed to send.
    ProfileStatus(Option<u16>),
    /// The parsed profile body: `None` when it is not a well-formed profile.
    ProfileParsed(Option<GitHubUser>),
}

/// What the caller does next.
pub enum CallbackAction {
    /// `GET key` on the key-value store.
    LookupVerifier { key: String },
    /// Exchange the code at the token endpoint, with the PKCE verifier.
    ExchangeCode { code: String, verifier: String },
    /// Send the profile request.
    FetchProfile(ProfileRequest),
    /// Read and parse the profile body.
    ReadProfileBody,
    /// Answer 200: the callback succeeded with this profile.
    Succeed(GitHubUser),
    /// Answer with the error.
    Fail(Error),
}

/// The first state and action of a callback.
pub open spec fn callback_start(query: CallbackQuery) -> (CallbackState, CallbackAction) {
    (CallbackState::AwaitingVerifier { code: query.code }, CallbackAction::LookupVerifier { key: query.state })
}

/// A step from `s` on `e` leads to state `t` with action `a`.
pub open spec fn steps_to(s: CallbackState, e: CallbackEvent, t: CallbackState, a: CallbackAction) -> bool {
    match (s, e) {
        (CallbackState::AwaitingVerifier { code }, CallbackEvent::VerifierLookedUp(found)) => match found {
            Some(verifier) => t == CallbackState::AwaitingToken && a == (CallbackAction::ExchangeCode {
                code,
                verifier,
            }),
            None => t == CallbackState::Finished && a == CallbackAction::Fail(Error::VerifierLookup),
        },
        (CallbackState::AwaitingToken, CallbackEvent::TokenExchanged(issued)) => match issued {
            Some(token) => if token.token_type is Bearer {
                t == CallbackState::AwaitingProfileStatus && a is FetchProfile && is_profile_request(
                    a->FetchProfile_0,
                    token.access_token@,
                )
            } else {
                t == CallbackState::Finished && a == CallbackAction::Fail(Error::UnsupportedTokenType)
            },
            None => t == CallbackState::Finished && a == CallbackAction::Fail(Error::TokenExchange),
        },
        (CallbackState::AwaitingProfileStatus, CallbackEvent::ProfileStatus(status)) => match status {
            Some(code) => match status_outcome(code) {
                Ok(_) => t == CallbackState::AwaitingProfileBody && a == CallbackAction::ReadProfileBody,
                Err(err) => t == CallbackState::Finished && a == CallbackAction::Fail(err),
            },
            None => t == CallbackState::Finished && a == CallbackAction::Fail(Error::ProfileRequest),
        },
        (CallbackState::AwaitingProfileBody, CallbackEvent::ProfileParsed(parsed)) => match parsed {
            Some(user) => t == CallbackState::Finished && a == CallbackAction::Succeed(user),
            None => t == CallbackState::Finished && a == CallbackAction::Fail(Error::ProfileParse),
        },
        _ => t == CallbackState::Finished && a == CallbackAction::Fail(Error::OutOfOrder),
    }
}

/// `found` is the store's answer to `GET key`.
pub open spec fn answers_lookup(store: Map<Seq<char>, Seq<char>>, key: Seq<char>, found: Option<String>) -> bool {
    match found {
        Some(v) => store_get(store, key) == Some(v@),
        None => store_get(store, key) is None,
    }
}

/// Starts a callback: look up the verifier stored under the state token.
pub fn begin_callback(query: CallbackQuery) -> (r: (CallbackState, CallbackAction))
    ensures
        r == callback_start(query),
{
    (CallbackState::AwaitingVerifier { code: query.code }, CallbackAction::LookupVerifier { key: query.state })
}

/// One step of a callback. An event that does not answer the state's pending
/// work ends the callback with `Error::OutOfOrder`.
pub fn step_callback(state: CallbackState, event: CallbackEvent) -> (r: (CallbackState, CallbackAction))
    ensures
        steps_to(state, event, r.0, r.1),
{
    match (state, event) {
        (CallbackState::AwaitingVerifier { code }, CallbackEvent::VerifierLookedUp(found)) => match found {
            Some(verifier) => (CallbackState::AwaitingToken, CallbackAction::ExchangeCode { code, verifier }),
            None => (CallbackState::Finished, CallbackAction::Fail(Error::VerifierLookup)),
        },
        (CallbackState::AwaitingToken, CallbackEvent::TokenExchanged(issued)) => match issued {
            Some(token) => match profile_request(&token) {
                Ok(request) => (CallbackState::AwaitingProfileStatus, CallbackAction::FetchProfile(request)),
                Err(err) => (CallbackState::Finished, CallbackAction::Fail(err)),
            },
            None => (CallbackState::Finished, CallbackAction::Fail(Error::TokenExchange)),
        },
        (CallbackState::AwaitingProfileStatus, CallbackEvent::ProfileStatus(status)) => match status {
            Some(code) => match check_profile_status(code) {
                Ok(()) => (CallbackState::AwaitingProfileBody, CallbackAction::ReadProfileBody),
                Err(err) => (CallbackState::Finished, CallbackAction::Fail(err)),
            },
            None => (CallbackState::Finished, CallbackAction::Fail(Error::ProfileRequest)),
        },
        (CallbackState::AwaitingProfileBody, CallbackEvent::ProfileParsed(parsed)) => match parsed {
            Some(user) => (CallbackState::Finished, CallbackAction::Succeed(user)),
            None => (CallbackState::Finished, CallbackAction::Fail(Error::ProfileParse)),
        },
        _ => (CallbackState::Finished, CallbackAction::Fail(Error::OutOfOrder)),
    }
}

/// A callback whose state token has no verifier in the store fails with a
/// lookup error at its first step and never asks for a token exchange.
pub proof fn lemma_unknown_state_fails_before_exchange(
    store: Map<Seq<char>, Seq<char>>,
    query: CallbackQuery,
    found: Option<String>,
    t: CallbackState,
    a: CallbackAction,
)
    requires
        !store.contains_key(query.state@),
        answers_lookup(store, query.state@, found),
        steps_to(callback_start(query).0, CallbackEvent::VerifierLookedUp(found), t, a),
    ensures
        t == CallbackState::Finished,
        a == CallbackAction::Fail(Error::VerifierLookup),
        !(a is ExchangeCode),
{
}

/// A callback whose state token has a verifier in the store goes on to
/// exchange its code with exactly that verifier.
pub proof fn lemma_known_state_exchanges_with_stored_verifier(
    store: Map<Seq<char>, Seq<char>>,
    query: CallbackQuery,
    found: Option<String>,
    t: CallbackState,
    a: CallbackAction,
)
    requires
        store.contains_key(query.state@),
        answers_lookup(store, query.state@, found),
        steps_to(callback_start(query).0, CallbackEvent::VerifierLookedUp(found), t, a),
    ensures
        t == CallbackState::AwaitingToken,
        a is ExchangeCode,
        a->ExchangeCode_code == query.code,
        a->ExchangeCode_verifier@ == store[query.state@],
{
}

/// A token that is not a bearer token ends the callback with
/// `UnsupportedTokenType`; no profile request is made.
pub proof fn lemma_non_bearer_token_sends_nothing(token: IssuedToken, t: CallbackState, a: CallbackAction)
    requires
        !(token.token_type is Bearer),
        steps_to(CallbackState::AwaitingToken, CallbackEvent::TokenExchanged(Some(token)), t, a),
    ensures
        t == CallbackState::Finished,
        a == CallbackAction::Fail(Error::UnsupportedTokenType),
        !(a is FetchProfile),
{
}

/// A profile answered with 401 ends the callback with an authentication
/// failure, not a generic one.
pub proof fn lemma_unauthorized_profile_is_authentication_failure(t: CallbackState, a: CallbackAction)
    requires
        steps_to(CallbackState::AwaitingProfileStatus, CallbackEvent::ProfileStatus(Some(401)), t, a),
    ensures
        t == CallbackState::Finished,
        a == CallbackAction::Fail(Error::Authentication),
{
}

/// A run in which the store holds a verifier for the state token, the
/// provider issues a bearer token, the profile answers 200 and its body
/// parses ends in success with exactly the parsed profile.
pub proof fn lemma_complete_run_succeeds_with_profile(
    query: CallbackQuery,
    verifier: String,
    token: IssuedToken,
    user: GitHubUser,
    s1: CallbackState,
    a1: CallbackAction,
    s2: CallbackState,
    a2: CallbackAction,
    s3: CallbackState,
    a3: CallbackAction,
    s4: CallbackState,
    a4: CallbackAction,
)
    requires
        token.token_type is Bearer,
        steps_to(callback_start(query).0, CallbackEvent::VerifierLookedUp(Some(verifier)), s1, a1),
        steps_to(s1, CallbackEvent::TokenExchanged(Some(token)), s2, a2),
        steps_to(s2, CallbackEvent::ProfileStatus(Some(200)), s3, a3),
        steps_to(s3, CallbackEvent::ProfileParsed(Some(user)), s4, a4),
    ensures
        a1 == (CallbackAction::ExchangeCode { code: query.code, verifier }),
        a2 is FetchProfile && is_profile_request(a2->FetchProfile_0, token.access_token@),
        a3 == CallbackAction::ReadProfileBody,
        s4 == CallbackState::Finished,
        a4 == CallbackAction::Succeed(user),
{
}

} // verus!
