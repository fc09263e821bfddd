//! Sign-in through GitHub's OAuth2 authorization-code flow with PKCE: the
//! values that the authorization redirect carries, and the decisions of the
//! callback that redeems the code and fetches the user's profile.

pub mod authorize;
pub mod callback;
pub mod config;
pub mod error;
pub mod profile;
pub mod provider;
