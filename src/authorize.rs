//! Starting an authorization: the fresh CSRF state token and PKCE pair, the
//! entry that keeps the verifier under the token, and the redirect response.
//! The key-value store itself is modelled as a map from keys to values.

use oauth2::{CsrfToken, PkceCodeChallenge};
use vstd::prelude::*;

verus! {

/// Status of the redirect to the provider: 303 See Other.
pub const SEE_OTHER: u16 = 303;
/// Header that echoes the CSRF state token to the caller.
pub const CSRF_TOKEN_HEADER: &'static str = "X-CSRF-Token";
/// Header that carries the redirect target.
pub const LOCATION_HEADER: &'static str = "Location";

/// The S256 challenge of a PKCE verifier: the URL-safe, unpadded base64 of
/// the SHA-256 digest of its bytes, as oauth2's
/// `PkceCodeChallenge::from_code_verifier_sha256` computes it.
pub uninterp spec fn s256_challenge(verifier: Seq<char>) -> Seq<char>;

/// Relies on oauth2's `CsrfToken::new_random`: a fresh random state token,
/// 16 random bytes in URL-safe base64 without padding, so 22 characters.
#[verifier::external_body]
fn random_csrf_token() -> (r: String)
    ensures
        r@.len() == 22,
{
    CsrfToken::new_random().secret().clone()
}

/// Relies on oauth2's `PkceCodeChallenge::new_random_sha256`: a fresh random
/// verifier, 32 random bytes in URL-safe base64 without padding (43
/// characters), and the challenge derived from it, whose text
/// `PkceCodeChallenge::as_str` gives.
#[verifier::external_body]
fn random_pkce_pair() -> (r: (PkceCodeChallenge, String, String))
    ensures
        r.2@.len() == 43,
        r.1@ == s256_challenge(r.2@),
{
    let (challenge, verifier) = PkceCodeChallenge::new_random_sha256();
    let text = challenge.as_str().to_string();
    (challenge, text, verifier.secret().clone())
}

/// The values drawn for one authorization attempt.
pub struct AuthorizationAttempt {
    /// The CSRF state token; the key of the stored verifier.
    pub csrf_token: String,
    /// The challenge sent to the provider in the authorization URL.
    pub pkce_challenge: PkceCodeChallenge,
    /// The text of that challenge.
    pub pkce_challenge_text: String,
    /// The verifier kept for the token exchange.
    pub pkce_verifier: String,
}

/// Draws a fresh state token and PKCE pair for an authorization attempt: a
/// 22-character token, a 43-character verifier, and the S256 challenge of
/// exactly that verifier.
pub fn new_attempt() -> (r: AuthorizationAttempt)
    ensures
        r.csrf_token@.len() == 22,
        r.pkce_verifier@.len() == 43,
        r.pkce_challenge_text@ == s256_challenge(r.pkce_verifier@),
{
    let (pkce_challenge, pkce_challenge_text, pkce_verifier) = random_pkce_pair();
    let csrf_token = random_csrf_token();
    AuthorizationAttempt { csrf_token, pkce_challenge, pkce_challenge_text, pkce_verifier }
}

/// A `SET key value` for the key-value store.
#[derive(Clone, Debug, PartialEq, Eq)]
pub struct StoreEntry {
    pub key: String,
    pub value: String,
}

/// The store entry of an attempt: its verifier under its state token.
pub fn verifier_entry(attempt: &AuthorizationAttempt) -> (r: StoreEntry)
    ensures
        r.key@ == attempt.csrf_token@,
        r.value@ == attempt.pkce_verifier@,
{
    StoreEntry { key: attempt.csrf_token.clone(), value: attempt.pkce_verifier.clone() }
}

/// An HTTP response without a body.
#[derive(Clone, Debug, PartialEq, Eq)]
pub struct Response {
    pub status: u16,
    pub headers: Vec<(String, String)>,
}

/// The response that sends the caller to the authorization URL: 303 See
/// Other, `Location` set to the URL and `X-CSRF-Token` to the state token.
pub fn redirect_response(location: &str, csrf_token: &str) -> (r: Response)
    ensures
        r.status == SEE_OTHER,
        r.headers@.len() == 2,
        r.headers@[0].0@ == LOCATION_HEADER@,
        r.headers@[0].1@ == location@,
        r.headers@[1].0@ == CSRF_TOKEN_HEADER@,
        r.headers@[1].1@ == csrf_token@,
{
    let mut headers: Vec<(String, String)> = Vec::new();
    headers.push((String::from_str(LOCATION_HEADER), String::from_str(location)));
    headers.push((String::from_str(CSRF_TOKEN_HEADER), String::from_str(csrf_token)));
    Response { status: SEE_OTHER, headers }
}

/// The store after `SET key value`.
pub open spec fn store_set(
    store: Map<Seq<char>, Seq<char>>,
    key: Seq<char>,
    value: Seq<char>,
) -> Map<Seq<char>, Seq<char>> {
    store.insert(key, value)
}

/// What `GET key` answers on the store.
pub open spec fn store_get(store: Map<Seq<char>, Seq<char>>, key: Seq<char>) -> Option<Seq<char>> {
    if store.contains_key(key) {
        Some(store[key])
    } else {
        None
    }
}

/// Once an attempt's entry is written, a lookup by its state token yields its
/// verifier, and a lookup by any other token yields what it yielded before:
/// the write never makes the verifier retrievable under another token.
pub proof fn lemma_verifier_retrievable_by_its_token_only(
    store: Map<Seq<char>, Seq<char>>,
    entry: StoreEntry,
    token: Seq<char>,
)
    ensures
        store_get(store_set(store, entry.key@, entry.value@), entry.key@) == Some(entry.value@),
        token != entry.key@ ==> store_get(store_set(store, entry.key@, entry.value@), token)
            == store_get(store, token),
        token != entry.key@ ==> store_get(store_set(Map::empty(), entry.key@, entry.value@), token)
            is None,
{
}

} // verus!
