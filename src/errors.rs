use vstd::prelude::*;

verus! {

pub const NO_HEADER: &'static str = "no authorization header provided.";

pub const BAD_HEADER: &'static str =
    "authorization header must provide an issued refresh token or a Google OAuth token.";

pub const GOOGLE_OAUTH_ERROR: &'static str = "error fetching your info from Google";

pub const BAD_CLIENT: &'static str = "OAuth client not allowed.";

pub const BAD_EMAIL: &'static str = "invalid email (not in scu.edu).";

pub const EMAIL_NOT_VERIFIED: &'static str = "invalid email (email is not verified).";

pub const BAD_REFRESH_TOKEN: &'static str = "could not verify refresh token";

pub const INVALID_TOKEN_TYPE: &'static str =
    "invalid token type (provided access token, expected refresh token)";

pub const INTERNAL_ERROR: &'static str = "Something went wrong, please try again.";

pub const RETRY_LATER: &'static str = ", please try again.";

/// The error handed to the HTTP boundary: a caller-facing message and a status code.
#[derive(Debug)]
pub struct HttpError {
    pub message: String,
    pub status: u16,
}

impl HttpError {
    pub fn new(msg: &str, status: u16) -> (r: HttpError)
        ensures
            r.message@ == msg@,
            r.status == status,
    {
        HttpError { message: msg.to_owned(), status }
    }
}

/// Why a request could not be answered with tokens.
#[derive(Debug)]
pub enum AuthError {
    MissingAuthHeader,
    MalformedAuthHeader,
    /// The identity provider answered with an error; its description.
    ProviderError(String),
    ClientNotAllowed,
    DomainNotAllowed,
    EmailNotVerified,
    /// The token's signature, shape or expiry is wrong; the reason.
    InvalidSignatureOrExpiry(String),
    WrongTokenKind,
    ProviderUnreachable,
    SigningFailure,
    SerializationFailure,
}

/// The HTTP status that each kind of error carries.
pub open spec fn status_of(e: AuthError) -> u16 {
    match e {
        AuthError::MissingAuthHeader | AuthError::MalformedAuthHeader => 400,
        AuthError::ProviderUnreachable | AuthError::SigningFailure
        | AuthError::SerializationFailure => 500,
        _ => 401,
    }
}

/// The message shown to the caller for each kind of error.
pub open spec fn message_of(e: AuthError) -> Seq<char> {
    match e {
        AuthError::MissingAuthHeader => NO_HEADER@,
        AuthError::MalformedAuthHeader => BAD_HEADER@,
        AuthError::ProviderError(d) => GOOGLE_OAUTH_ERROR@ + " ("@ + d@ + ")."@,
        AuthError::ClientNotAllowed => BAD_CLIENT@,
        AuthError::DomainNotAllowed => BAD_EMAIL@,
        AuthError::EmailNotVerified => EMAIL_NOT_VERIFIED@,
        AuthError::InvalidSignatureOrExpiry(reason) => BAD_REFRESH_TOKEN@ + " ("@ + reason@ + ")"@,
        AuthError::WrongTokenKind => INVALID_TOKEN_TYPE@,
        AuthError::ProviderUnreachable => GOOGLE_OAUTH_ERROR@ + RETRY_LATER@,
        AuthError::SigningFailure | AuthError::SerializationFailure => INTERNAL_ERROR@,
    }
}

impl AuthError {
    pub fn status(&self) -> (r: u16)
        ensures
            r == status_of(*self),
    {
        match self {
            AuthError::MissingAuthHeader | AuthError::MalformedAuthHeader => 400,
            AuthError::ProviderUnreachable | AuthError::SigningFailure
            | AuthError::SerializationFailure => 500,
            _ => 401,
        }
    }

    pub fn message(&self) -> (r: String)
        ensures
            r@ == message_of(*self),
    {
        match self {
            AuthError::MissingAuthHeader => NO_HEADER.to_owned(),
            AuthError::MalformedAuthHeader => BAD_HEADER.to_owned(),
            AuthError::ProviderError(d) => {
                GOOGLE_OAUTH_ERROR.to_owned().concat(" (").concat(d.as_str()).concat(").")
            },
            AuthError::ClientNotAllowed => BAD_CLIENT.to_owned(),
            AuthError::DomainNotAllowed => BAD_EMAIL.to_owned(),
            AuthError::EmailNotVerified => EMAIL_NOT_VERIFIED.to_owned(),
            AuthError::InvalidSignatureOrExpiry(reason) => {
                BAD_REFRESH_TOKEN.to_owned().concat(" (").concat(reason.as_str()).concat(")")
            },
            AuthError::WrongTokenKind => INVALID_TOKEN_TYPE.to_owned(),
            AuthError::ProviderUnreachable => GOOGLE_OAUTH_ERROR.to_owned().concat(RETRY_LATER),
            AuthError::SigningFailure | AuthError::SerializationFailure => {
                INTERNAL_ERROR.to_owned()
            },
        }
    }

    /// The message and status that the HTTP boundary answers with.
    pub fn to_http_error(&self) -> (r: HttpError)
        ensures
            r.message@ == message_of(*self),
            r.status == status_of(*self),
    {
        HttpError { message: self.message(), status: self.status() }
    }
}

} // verus!
