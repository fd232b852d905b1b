use vstd::prelude::*;

verus! {

/// What the identity provider's profile says of the user.
#[derive(Debug, Clone)]
pub struct OAuthInfo {
    pub email: String,
    pub name: String,
    pub photo_url: String,
}

/// An authenticated caller: the user id, and the provider profile where the
/// identity provider vouched for it.
#[derive(Debug, Clone)]
pub struct UserAuthorization {
    pub user_id: String,
    pub oauth_info: Option<OAuthInfo>,
}

/// The tokens handed back to the caller.
#[derive(Debug)]
pub struct GetAuthTokenResponse {
    pub access_token: String,
    pub access_token_expiration_date: String,
    pub refresh_token: Option<String>,
    pub o_auth_info: Option<OAuthInfo>,
}

/// The claims carried inside a signed token.
#[derive(Debug, Clone)]
pub struct JwtClaims {
    pub sub: String,
    pub exp: u64,
    pub token_type: String,
}

/// The profile endpoint's answer: the profile, or an error.
#[derive(Debug)]
pub enum GoogleUserInfoResponse {
    Success(GoogleUserInfoSuccessResponse),
    Error(GoogleUserInfoErrorResponse),
}

#[derive(Debug)]
pub struct GoogleUserInfoSuccessResponse {
    pub sub: String,
    pub name: String,
    pub family_name: String,
    pub given_name: String,
    pub picture: String,
    pub email: String,
    pub email_verified: bool,
}

#[derive(Debug)]
pub struct GoogleUserInfoErrorResponse {
    pub error: String,
    pub error_description: String,
}

/// The token-introspection endpoint's answer: the audience, or an error.
#[derive(Debug)]
pub enum GoogleTokenInfoResponse {
    Success(GoogleTokenInfoSuccessResponse),
    Error(GoogleUserInfoErrorResponse),
}

#[derive(Debug)]
pub struct GoogleTokenInfoSuccessResponse {
    pub aud: String,
}

} // verus!
