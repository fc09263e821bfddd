use github_oauth::config::{callback_url, github_settings, requested_scopes, route_paths, GitHubRoute};

#[test]
fn settings_present_when_both_credentials_set() {
    let s = github_settings(Some("id".to_string()), Some("secret".to_string()), "http://localhost:8080");
    let s = s.expect("settings");
    assert_eq!(s.client_id, "id");
    assert_eq!(s.client_secret, "secret");
    assert_eq!(s.redirect_url, "http://localhost:8080/auth/github/callback");
}

#[test]
fn missing_client_id_disables_feature_and_routes() {
    let s = github_settings(None, Some("secret".to_string()), "http://h");
    assert!(s.is_none());
    assert!(route_paths(&s).is_empty());
}

#[test]
fn missing_client_secret_disables_feature_and_routes() {
    let s = github_settings(Some("id".to_string()), None, "http://h");
    assert!(s.is_none());
    assert!(route_paths(&s).is_empty());
}

#[test]
fn missing_both_credentials_disables_feature() {
    let s = github_settings(None, None, "http://h");
    assert!(s.is_none());
    assert_eq!(route_paths(&s).len(), 0);
}

#[test]
fn configured_feature_registers_two_routes() {
    let s = github_settings(Some("id".to_string()), Some("secret".to_string()), "http://h");
    assert_eq!(
        route_paths(&s),
        vec![
            ("/github/auth".to_string(), GitHubRoute::Auth),
            ("/github/callback".to_string(), GitHubRoute::Callback),
        ]
    );
}

#[test]
fn callback_url_appends_path() {
    assert_eq!(callback_url("https://example.com"), "https://example.com/auth/github/callback");
    assert_eq!(callback_url(""), "/auth/github/callback");
}

#[test]
fn scopes_are_public_repo_then_email() {
    assert_eq!(requested_scopes(), vec!["public_repo".to_string(), "user:email".to_string()]);
}
