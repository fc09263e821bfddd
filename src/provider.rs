//! The types of the `oauth2` and `url` crates that the library
//! carries, declared so that they may stand in signatures and fields. Each is
//! opaque but `BasicTokenType`, whose variants the library tells apart.

use vstd::prelude::*;

verus! {

#[verifier::external_type_specification]
#[verifier::external_body]
pub struct ExUrl(url::Url);

/// Relies on the `Clone` that `url::Url` derives: a copy of every field.
pub assume_specification[ <url::Url as Clone>::clone ](u: &url::Url) -> (r: url::Url)
    ensures
        r == *u,
;

#[verifier::external_type_specification]
#[verifier::external_body]
pub struct ExPkceCodeChallenge(oauth2::PkceCodeChallenge);

/// The token types of RFC 6749; the variants are visible to the library.
#[verifier::external_type_specification]
pub struct ExBasicTokenType(oauth2::basic::BasicTokenType);

} // verus!
