use crate::clock::now_timestamp;
use crate::codec::{
    claims_checked, decode_claims, dot_count, jwt_encoded, DecodedClaims, ACCESS, REFRESH,
};
use crate::errors::AuthError;
use crate::model::{
    GoogleTokenInfoResponse, GoogleUserInfoResponse, JwtClaims, OAuthInfo, UserAuthorization,
};
use vstd::prelude::*;

verus! {

/// The domain that every accepted e-mail address ends with.
pub const EMAIL_DOMAIN: &'static str = "@scu.edu";

/// `part` stands in `s` at position `i`.
pub open spec fn occurs_at(s: Seq<char>, part: Seq<char>, i: int) -> bool {
    0 <= i && i + part.len() <= s.len() && s.subrange(i, i + part.len()) == part
}

/// `id` is one of the space-separated items of `list`.
pub open spec fn client_listed(list: Seq<char>, id: Seq<char>) -> bool {
    &&& forall|k: int| 0 <= k < id.len() ==> id[k] != ' '
    &&& exists|i: int|
        occurs_at(list, id, i) && (i == 0 || list[i - 1] == ' ') && (i + id.len() == list.len()
            || list[i + id.len()] == ' ')
}

/// `email` belongs to the organisation's domain.
pub open spec fn in_email_domain(email: Seq<char>) -> bool {
    EMAIL_DOMAIN@.len() <= email.len() && email.subrange(
        email.len() - EMAIL_DOMAIN@.len(),
        email.len() as int,
    ) == EMAIL_DOMAIN@
}

fn occurs_at_exec(s: &str, part: &str, i: usize) -> (r: bool)
    requires
        i + part@.len() <= s@.len(),
    ensures
        r == occurs_at(s@, part@, i as int),
{
    let n = s.unicode_len();
    let m = part.unicode_len();
    let mut j: usize = 0;
    while j < m
        invariant
            m == part@.len(),
            n == s@.len(),
            i + m <= n,
            j <= m,
            forall|k: int| 0 <= k < j ==> s@[i + k] == part@[k],
        decreases m - j,
    {
        if s.get_char(i + j) != part.get_char(j) {
            assert(s@.subrange(i as int, i + m)[j as int] != part@[j as int]);
            return false;
        }
        j = j + 1;
    }
    assert(s@.subrange(i as int, i + m) =~= part@);
    true
}

/// Whether `s` ends with `suffix`.
pub fn has_suffix(s: &str, suffix: &str) -> (r: bool)
    ensures
        r == (suffix@.len() <= s@.len() && s@.subrange(s@.len() - suffix@.len(), s@.len() as int)
            == suffix@),
{
    let n = s.unicode_len();
    let m = suffix.unicode_len();
    if m > n {
        return false;
    }
    occurs_at_exec(s, suffix, n - m)
}

fn has_no_space(s: &str) -> (r: bool)
    ensures
        r == forall|k: int| 0 <= k < s@.len() ==> s@[k] != ' ',
{
    let n = s.unicode_len();
    let mut i: usize = 0;
    while i < n
        invariant
            n == s@.len(),
            i <= n,
            forall|k: int| 0 <= k < i ==> s@[k] != ' ',
        decreases n - i,
    {
        if s.get_char(i) == ' ' {
            return false;
        }
        i = i + 1;
    }
    true
}

/// Whether `id` is one of the space-separated client ids of `list`.
pub fn is_client_listed(list: &str, id: &str) -> (r: bool)
    ensures
        r == client_listed(list@, id@),
{
    if !has_no_space(id) {
        return false;
    }
    let n = list.unicode_len();
    let m = id.unicode_len();
    if m > n {
        assert(forall|i: int| !occurs_at(list@, id@, i));
        return false;
    }
    let last = n - m;
    let mut i: usize = 0;
    loop
        invariant
            n == list@.len(),
            m == id@.len(),
            last == n - m,
            i <= last,
            forall|k: int| 0 <= k < id@.len() ==> id@[k] != ' ',
            forall|j: int|
                0 <= j < i ==> !(occurs_at(list@, id@, j) && (j == 0 || list@[j - 1] == ' ') && (
                j + m == n || list@[j + m] == ' ')),
        decreases last - i,
    {
        let starts = i == 0 || list.get_char(i - 1) == ' ';
        let ends = i + m == n || list.get_char(i + m) == ' ';
        if starts && ends && occurs_at_exec(list, id, i) {
            return true;
        }
        if i == last {
            assert forall|j: int|
                !(occurs_at(list@, id@, j) && (j == 0 || list@[j - 1] == ' ') && (j + m == n
                    || list@[j + m] == ' ')) by {
                if 0 <= j <= i {
                } else if occurs_at(list@, id@, j) {
                }
            }
            return false;
        }
        i = i + 1;
    }
}

/// What the identity-provider path decides from the two answers: `None` stands
/// for an endpoint that could not be reached or whose answer could not be read.
pub open spec fn google_outcome(
    token_info: Option<GoogleTokenInfoResponse>,
    user_info: Option<GoogleUserInfoResponse>,
    allowed_client_ids: Seq<char>,
) -> Result<UserAuthorization, AuthError> {
    match token_info {
        None => Err(AuthError::ProviderUnreachable),
        Some(GoogleTokenInfoResponse::Error(e)) => Err(AuthError::ProviderError(e.error_description)),
        Some(GoogleTokenInfoResponse::Success(t)) => if !client_listed(allowed_client_ids, t.aud@) {
            Err(AuthError::ClientNotAllowed)
        } else {
            match user_info {
                None => Err(AuthError::ProviderUnreachable),
                Some(GoogleUserInfoResponse::Error(e)) => Err(
                    AuthError::ProviderError(e.error_description),
                ),
                Some(GoogleUserInfoResponse::Success(u)) => if !in_email_domain(u.email@) {
                    Err(AuthError::DomainNotAllowed)
                } else if !u.email_verified {
                    Err(AuthError::EmailNotVerified)
                } else {
                    Ok(
                        UserAuthorization {
                            user_id: u.sub,
                            oauth_info: Some(
                                OAuthInfo { email: u.email, name: u.name, photo_url: u.picture },
                            ),
                        },
                    )
                },
            }
        },
    }
}

/// Authenticates a caller from the identity provider's answers to the
/// token-introspection and profile requests, made with the caller's token.
pub fn verify_google_oauth_token(
    token_info: Option<GoogleTokenInfoResponse>,
    user_info: Option<GoogleUserInfoResponse>,
    allowed_client_ids: &str,
) -> (r: Result<UserAuthorization, AuthError>)
    ensures
        r == google_outcome(token_info, user_info, allowed_client_ids@),
{
    match token_info {
        None => return Err(AuthError::ProviderUnreachable),
        Some(GoogleTokenInfoResponse::Error(e)) => {
            return Err(AuthError::ProviderError(e.error_description));
        },
        Some(GoogleTokenInfoResponse::Success(t)) => {
            if !is_client_listed(allowed_client_ids, t.aud.as_str()) {
                return Err(AuthError::ClientNotAllowed);
            }
        },
    }
    match user_info {
        None => Err(AuthError::ProviderUnreachable),
        Some(GoogleUserInfoResponse::Error(e)) => Err(AuthError::ProviderError(e.error_description)),
        Some(GoogleUserInfoResponse::Success(u)) => {
            if !has_suffix(u.email.as_str(), EMAIL_DOMAIN) {
                return Err(AuthError::DomainNotAllowed);
            }
            if !u.email_verified {
                return Err(AuthError::EmailNotVerified);
            }
            Ok(
                UserAuthorization {
                    user_id: u.sub,
                    oauth_info: Some(
                        OAuthInfo { email: u.email, name: u.name, photo_url: u.picture },
                    ),
                },
            )
        },
    }
}

/// What the refresh path makes of decoded claims.
pub open spec fn refresh_outcome(claims: Result<JwtClaims, AuthError>) -> Result<
    UserAuthorization,
    AuthError,
> {
    match claims {
        Err(e) => Err(e),
        Ok(c) => if c.token_type@ == REFRESH@ {
            Ok(UserAuthorization { user_id: c.sub, oauth_info: None })
        } else {
            Err(AuthError::WrongTokenKind)
        },
    }
}

/// Accepts decoded claims as a refresh credential only if they are of the refresh kind.
pub fn authorize_refresh_claims(claims: Result<JwtClaims, AuthError>) -> (r: Result<
    UserAuthorization,
    AuthError,
>)
    ensures
        r == refresh_outcome(claims),
{
    let c = match claims {
        Err(e) => return Err(e),
        Ok(c) => c,
    };
    if c.token_type == REFRESH.to_owned() {
        Ok(UserAuthorization { user_id: c.sub, oauth_info: None })
    } else {
        Err(AuthError::WrongTokenKind)
    }
}

/// Authenticates a caller by a refresh token signed with `secret`, at time `now`.
pub fn verify_refresh_token_at(refresh_token: &str, secret: &str, now: u64) -> (r: Result<
    UserAuthorization,
    AuthError,
>)
    ensures
        // the outcome of checking some signature's claims at `now`
        exists|d: Result<DecodedClaims, String>, c: Result<JwtClaims, AuthError>|
            claims_checked(d, now, c) && r == refresh_outcome(c),
        r matches Ok(a) ==> a.oauth_info is None,
        r is Err ==> (r matches Err(AuthError::InvalidSignatureOrExpiry(_)) || r == Err::<
            UserAuthorization,
            AuthError,
        >(AuthError::WrongTokenKind)),
        dot_count(refresh_token@) < 2 ==> r matches Err(AuthError::InvalidSignatureOrExpiry(_)),
        // a refresh token issued here names its user until it expires
        forall|sub: Seq<char>, exp: int|
            #![trigger jwt_encoded(sub, REFRESH@, exp, secret@)]
            now < exp <= u64::MAX && refresh_token@ == jwt_encoded(
                sub,
                REFRESH@,
                exp,
                secret@,
            ) ==> (r matches Ok(a) && a.user_id@ == sub),
        // an access token issued here is never taken for a refresh token
        forall|sub: Seq<char>, exp: int|
            #![trigger jwt_encoded(sub, ACCESS@, exp, secret@)]
            now < exp <= u64::MAX && refresh_token@ == jwt_encoded(
                sub,
                ACCESS@,
                exp,
                secret@,
            ) ==> r == Err::<UserAuthorization, AuthError>(AuthError::WrongTokenKind),
        // and no token is taken once its expiry is reached
        forall|sub: Seq<char>, token_type: Seq<char>, exp: int|
            #![trigger jwt_encoded(sub, token_type, exp, secret@)]
            0 <= exp <= now && refresh_token@ == jwt_encoded(
                sub,
                token_type,
                exp,
                secret@,
            ) ==> r matches Err(AuthError::InvalidSignatureOrExpiry(_)),
{
    let claims = decode_claims(refresh_token, secret, now);
    let ghost c = claims;
    let ghost d = choose|d: Result<DecodedClaims, String>| claims_checked(d, now, c);
    proof {
        reveal_strlit("access");
        reveal_strlit("refresh");
        assert(ACCESS@ == "access"@);
        assert(ACCESS@[0] != REFRESH@[0]);
    }
    let r = authorize_refresh_claims(claims);
    assert(claims_checked(d, now, c) && r == refresh_outcome(c));
    r
}

/// Authenticates a caller by a refresh token signed with `secret`, at the current time.
pub fn verify_refresh_token(refresh_token: &str, secret: &str) -> (r: Result<
    UserAuthorization,
    AuthError,
>)
    ensures
        // the outcome of checking some signature's claims at some time
        exists|now: u64, d: Result<DecodedClaims, String>, c: Result<JwtClaims, AuthError>|
            claims_checked(d, now, c) && r == refresh_outcome(c),
        r matches Ok(a) ==> a.oauth_info is None,
        r is Err ==> (r matches Err(AuthError::InvalidSignatureOrExpiry(_)) || r == Err::<
            UserAuthorization,
            AuthError,
        >(AuthError::WrongTokenKind)),
        dot_count(refresh_token@) < 2 ==> r matches Err(AuthError::InvalidSignatureOrExpiry(_)),
        // a refresh token issued here, if accepted, names its user
        forall|sub: Seq<char>, exp: int|
            #![trigger jwt_encoded(sub, REFRESH@, exp, secret@)]
            0 <= exp <= u64::MAX && refresh_token@ == jwt_encoded(
                sub,
                REFRESH@,
                exp,
                secret@,
            ) ==> (r matches Ok(a) ==> a.user_id@ == sub),
        // an access token issued here is always refused
        forall|sub: Seq<char>, exp: int|
            #![trigger jwt_encoded(sub, ACCESS@, exp, secret@)]
            0 <= exp <= u64::MAX && refresh_token@ == jwt_encoded(
                sub,
                ACCESS@,
                exp,
                secret@,
            ) ==> r is Err,
{
    let now = now_timestamp();
    verify_refresh_token_at(refresh_token, secret, now)
}

} // verus!
