//! Whether the GitHub sign-in is enabled, the provider's fixed endpoints, and
//! the routes that the feature registers.

use vstd::prelude::*;

verus! {

/// Path of the callback route, appended to the host's base URL.
pub const GITHUB_CALLBACK_PATH: &'static str = "/auth/github/callback";
/// GitHub's authorization endpoint.
pub const GITHUB_AUTH_URL: &'static str = "https://github.com/login/oauth/authorize";
/// GitHub's token endpoint.
pub const GITHUB_TOKEN_URL: &'static str = "https://github.com/login/oauth/access_token";
/// GitHub's endpoint for the signed-in user's profile.
pub const GITHUB_USER_API_URL: &'static str = "https://api.github.com/user";
/// The path prefix under which the two routes are registered.
pub const GITHUB_SCOPE_PATH: &'static str = "/github";
/// The route that starts an authorization.
pub const AUTH_ROUTE: &'static str = "/auth";
/// The route that the provider redirects back to.
pub const CALLBACK_ROUTE: &'static str = "/callback";
/// Scope asking for access to public repositories.
pub const PUBLIC_REPO_SCOPE: &'static str = "public_repo";
/// Scope asking for the user's email addresses.
pub const USER_EMAIL_SCOPE: &'static str = "user:email";

/// The registered application's credentials and the URL the provider
/// redirects back to.
pub struct GitHubSettings {
    pub client_id: String,
    pub client_secret: String,
    pub redirect_url: String,
}

/// Both credentials are configured.
pub open spec fn credentials_present(client_id: Option<String>, client_secret: Option<String>) -> bool {
    client_id is Some && client_secret is Some
}

/// The handlers that the feature's routes lead to.
#[derive(Clone, Copy, Debug, PartialEq, Eq, Structural)]
pub enum GitHubRoute {
    /// Starts an authorization.
    Auth,
    /// Receives the provider's redirect back.
    Callback,
}

/// The routes that the feature registers, full path and handler, given
/// whether it is enabled.
pub open spec fn route_table(enabled: bool) -> Seq<(Seq<char>, GitHubRoute)> {
    if enabled {
        seq![
            (GITHUB_SCOPE_PATH@ + AUTH_ROUTE@, GitHubRoute::Auth),
            (GITHUB_SCOPE_PATH@ + CALLBACK_ROUTE@, GitHubRoute::Callback),
        ]
    } else {
        Seq::empty()
    }
}

/// The callback URL for a host: its base URL followed by the callback path.
pub fn callback_url(host_url: &str) -> (r: String)
    ensures
        r@ == host_url@ + GITHUB_CALLBACK_PATH@,
{
    let s = String::from_str(host_url);
    s.concat(GITHUB_CALLBACK_PATH)
}

/// The settings of the feature, from the two credentials as the environment
/// gave them and the host's base URL. `None`, the feature switched off, when
/// either credential is missing.
pub fn github_settings(client_id: Option<String>, client_secret: Option<String>, host_url: &str) -> (r:
    Option<GitHubSettings>)
    ensures
        r is Some <==> credentials_present(client_id, client_secret),
        r matches Some(s) ==> {
            &&& s.client_id == client_id->0
            &&& s.client_secret == client_secret->0
            &&& s.redirect_url@ == host_url@ + GITHUB_CALLBACK_PATH@
        },
{
    match (client_id, client_secret) {
        (Some(id), Some(secret)) => Some(
            GitHubSettings { client_id: id, client_secret: secret, redirect_url: callback_url(host_url) },
        ),
        _ => None,
    }
}

/// The routes to register, full path and handler: the two routes under the
/// prefix when the feature is configured, none when it is not.
pub fn route_paths(settings: &Option<GitHubSettings>) -> (r: Vec<(String, GitHubRoute)>)
    ensures
        r@.len() == route_table(settings is Some).len(),
        forall|i: int|
            0 <= i < r@.len() ==> r@[i].0@ == route_table(settings is Some)[i].0 && r@[i].1
                == route_table(settings is Some)[i].1,
{
    let mut r: Vec<(String, GitHubRoute)> = Vec::new();
    if settings.is_some() {
        r.push((String::from_str(GITHUB_SCOPE_PATH).concat(AUTH_ROUTE), GitHubRoute::Auth));
        r.push((String::from_str(GITHUB_SCOPE_PATH).concat(CALLBACK_ROUTE), GitHubRoute::Callback));
    }
    r
}

/// The scopes that an authorization asks for: public repositories and email
/// addresses, in that order.
pub fn requested_scopes() -> (r: Vec<String>)
    ensures
        r@.len() == 2,
        r@[0]@ == PUBLIC_REPO_SCOPE@,
        r@[1]@ == USER_EMAIL_SCOPE@,
{
    let mut r: Vec<String> = Vec::new();
    r.push(String::from_str(PUBLIC_REPO_SCOPE));
    r.push(String::from_str(USER_EMAIL_SCOPE));
    r
}

/// With a credential missing, the feature registers no route at all, and
/// starting up is no failure: the settings are simply absent.
pub proof fn lemma_missing_credentials_register_no_routes(
    client_id: Option<String>,
    client_secret: Option<String>,
)
    requires
        client_id is None || client_secret is None,
    ensures
        !credentials_present(client_id, client_secret),
        route_table(credentials_present(client_id, client_secret)).len() == 0,
{
}

} // verus!
