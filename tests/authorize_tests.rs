use github_oauth::authorize::{new_attempt, redirect_response, verifier_entry, StoreEntry, SEE_OTHER};
use github_oauth::config::{requested_scopes, GITHUB_AUTH_URL, GITHUB_TOKEN_URL};
use oauth2::basic::BasicClient;
use oauth2::{AuthUrl, ClientId, ClientSecret, CsrfToken, PkceCodeChallenge, PkceCodeVerifier, RedirectUrl, Scope, TokenUrl};
use std::collections::HashMap;

#[test]
fn attempts_draw_fresh_tokens() {
    let a = new_attempt();
    let b = new_attempt();
    assert!(!a.csrf_token.is_empty());
    assert_eq!(a.csrf_token.len(), 22);
    assert_eq!(a.pkce_verifier.len(), 43);
    assert_ne!(a.csrf_token, b.csrf_token);
    assert_ne!(a.pkce_verifier, b.pkce_verifier);
}

#[test]
fn entry_keeps_verifier_under_token() {
    let a = new_attempt();
    let e = verifier_entry(&a);
    assert_eq!(e, StoreEntry { key: a.csrf_token.clone(), value: a.pkce_verifier.clone() });
}

#[test]
fn stored_verifier_retrievable_by_its_token_only() {
    let a = new_attempt();
    let b = new_attempt();
    let mut store: HashMap<String, String> = HashMap::new();
    for e in [verifier_entry(&a), verifier_entry(&b)] {
        store.insert(e.key, e.value);
    }
    assert_eq!(store.get(&a.csrf_token), Some(&a.pkce_verifier));
    assert_eq!(store.get(&b.csrf_token), Some(&b.pkce_verifier));
    assert_eq!(store.get("another-token"), None);
}

#[test]
fn redirect_response_headers() {
    let r = redirect_response("https://github.com/login/oauth/authorize?state=abc", "abc");
    assert_eq!(r.status, 303);
    assert_eq!(
        r.headers,
        vec![
            ("Location".to_string(), "https://github.com/login/oauth/authorize?state=abc".to_string()),
            ("X-CSRF-Token".to_string(), "abc".to_string()),
        ]
    );
}

#[test]
fn redirect_state_matches_csrf_header() {
    let client = BasicClient::new(
        ClientId::new("id".to_string()),
        Some(ClientSecret::new("secret".to_string())),
        AuthUrl::new(GITHUB_AUTH_URL.to_string()).unwrap(),
        Some(TokenUrl::new(GITHUB_TOKEN_URL.to_string()).unwrap()),
    )
    .set_redirect_uri(RedirectUrl::new("http://localhost:8080/auth/github/callback".to_string()).unwrap());
    let attempt = new_attempt();
    let token = attempt.csrf_token.clone();
    let (location, state) = client
        .authorize_url(move || CsrfToken::new(token))
        .add_scopes(requested_scopes().into_iter().map(Scope::new))
        .set_pkce_challenge(attempt.pkce_challenge)
        .url();
    let r = redirect_response(location.as_str(), state.secret());
    assert_eq!(r.status, SEE_OTHER);
    let header = r.headers.iter().find(|(k, _)| k == "X-CSRF-Token").map(|(_, v)| v.clone()).unwrap();
    let loc = r.headers.iter().find(|(k, _)| k == "Location").map(|(_, v)| v.clone()).unwrap();
    let parsed = url::Url::parse(&loc).unwrap();
    let param = parsed.query_pairs().find(|(k, _)| k == "state").map(|(_, v)| v.into_owned()).unwrap();
    assert_eq!(header, attempt.csrf_token);
    assert_eq!(param, header);
}

#[test]
fn challenge_is_s256_of_the_stored_verifier() {
    let a = new_attempt();
    let derived = PkceCodeChallenge::from_code_verifier_sha256(&PkceCodeVerifier::new(a.pkce_verifier.clone()));
    assert_eq!(a.pkce_challenge_text, derived.as_str());
    assert_eq!(a.pkce_challenge.as_str(), a.pkce_challenge_text);
    assert_ne!(a.pkce_challenge_text, a.pkce_verifier);
}
