use crate::clock::now_timestamp;
use crate::codec::{generate_token, jwt_encoded, ACCESS, REFRESH};
use crate::errors::AuthError;
use crate::model::{GetAuthTokenResponse, UserAuthorization};
use vstd::prelude::*;

verus! {

/// Seconds that an access token stays valid: seven days.
pub const ACCESS_TOKEN_LIFETIME: u64 = 604800;

/// Seconds that a refresh token stays valid: thirty days.
pub const REFRESH_TOKEN_LIFETIME: u64 = 2592000;

/// The last second of the year 9999, up to which a date can always be written.
pub const LATEST_WRITABLE_TIME: u64 = 253402300799;

/// The RFC 3339 text of the UTC date and time `secs` seconds after the Unix epoch.
pub uninterp spec fn rfc3339_utc(secs: int) -> Seq<char>;

/// Relies on chrono::DateTime::from_timestamp and DateTime::to_rfc3339: the UTC
/// date and time of `secs`; `None` only outside chrono's range of dates, which
/// holds every year from 1970 to 9999.
#[verifier::external_body]
fn format_rfc3339(secs: i64) -> (r: Option<String>)
    ensures
        r matches Some(s) ==> s@ == rfc3339_utc(secs as int),
        0 <= secs <= LATEST_WRITABLE_TIME ==> r is Some,
{
    Some(chrono::DateTime::from_timestamp(secs, 0)?.to_rfc3339())
}

/// `r` is a set of tokens issued at time `now` for `authorization`: an access
/// token, a refresh token only for a caller that the identity provider vouched
/// for, and the provider's profile passed through. The only failure is a date
/// that cannot be written, after the year 9999.
pub open spec fn issued_at(
    authorization: UserAuthorization,
    secret: Seq<char>,
    now: int,
    r: Result<GetAuthTokenResponse, AuthError>,
) -> bool {
    let access_exp = now + ACCESS_TOKEN_LIFETIME;
    let refresh_exp = now + REFRESH_TOKEN_LIFETIME;
    match r {
        Ok(resp) => {
            &&& resp.access_token@ == jwt_encoded(
                authorization.user_id@,
                ACCESS@,
                access_exp,
                secret,
            )
            &&& resp.access_token_expiration_date@ == rfc3339_utc(access_exp)
            &&& resp.refresh_token is Some <==> authorization.oauth_info is Some
            &&& resp.refresh_token matches Some(t) ==> t@ == jwt_encoded(
                authorization.user_id@,
                REFRESH@,
                refresh_exp,
                secret,
            )
            &&& resp.o_auth_info == authorization.oauth_info
        },
        Err(e) => e == AuthError::SerializationFailure && access_exp > LATEST_WRITABLE_TIME,
    }
}

/// Issues the tokens for an authenticated caller at time `now`, signed with `secret`.
pub fn issue_tokens(authorization: UserAuthorization, secret: &str, now: u64) -> (r: Result<
    GetAuthTokenResponse,
    AuthError,
>)
    ensures
        issued_at(authorization, secret@, now as int, r),
        now + ACCESS_TOKEN_LIFETIME <= LATEST_WRITABLE_TIME ==> r is Ok,
{
    if now > LATEST_WRITABLE_TIME {
        return Err(AuthError::SerializationFailure);
    }
    let access_exp = now + ACCESS_TOKEN_LIFETIME;
    let refresh_exp = now + REFRESH_TOKEN_LIFETIME;
    let access_token = generate_token(authorization.user_id.as_str(), ACCESS, access_exp, secret)?;
    let refresh_token = match &authorization.oauth_info {
        None => None,
        Some(_) => Some(
            generate_token(authorization.user_id.as_str(), REFRESH, refresh_exp, secret)?,
        ),
    };
    let date = match format_rfc3339(access_exp as i64) {
        Some(d) => d,
        None => return Err(AuthError::SerializationFailure),
    };
    Ok(
        GetAuthTokenResponse {
            access_token,
            access_token_expiration_date: date,
            refresh_token,
            o_auth_info: authorization.oauth_info,
        },
    )
}

/// Issues the tokens for an authenticated caller at the current time.
pub fn get_auth_token(authorization: UserAuthorization, secret: &str) -> (r: Result<
    GetAuthTokenResponse,
    AuthError,
>)
    ensures
        exists|now: int|
            0 <= now <= i64::MAX && issued_at(authorization, secret@, now, r) && (now
                + ACCESS_TOKEN_LIFETIME <= LATEST_WRITABLE_TIME ==> r is Ok),
{
    let now = now_timestamp();
    issue_tokens(authorization, secret, now)
}

} // verus!
