//! Exchange of an identity-provider token or a refresh token for signed session tokens.

pub mod clock;
pub mod codec;
pub mod credential;
pub mod errors;
pub mod header;
pub mod issuer;
pub mod model;
