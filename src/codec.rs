use crate::errors::AuthError;
use crate::model::JwtClaims;
use vstd::prelude::*;

verus! {

/// The `type` claim of an access token.
pub const ACCESS: &'static str = "access";

/// The `type` claim of a refresh token.
pub const REFRESH: &'static str = "refresh";

/// Reason given for a token whose expiry is not after the current time.
pub const EXPIRED: &'static str = "ExpiredSignature";

/// Reason given for a signed token that lacks one of its claims.
pub const MISSING_CLAIM: &'static str = "Missing required claim";

/// The HS256 token that carries the claims `sub`, `type` and `exp`, signed with `secret`.
pub uninterp spec fn jwt_encoded(
    sub: Seq<char>,
    token_type: Seq<char>,
    exp: int,
    secret: Seq<char>,
) -> Seq<char>;

/// Relies on jsonwebtoken::encode with the default (HS256) header and an HMAC key
/// from EncodingKey::from_secret: the key fits the algorithm, a map of strings and
/// numbers always serialises, and HMAC signing cannot fail, so the call succeeds,
/// and the token is made from the claims and the secret alone.
#[verifier::external_body]
fn jwt_encode(sub: &str, token_type: &str, exp: u64, secret: &str) -> (r: Result<String, String>)
    ensures
        r is Ok,
        r matches Ok(t) ==> t@ == jwt_encoded(sub@, token_type@, exp as int, secret@),
{
    let mut claims = std::collections::BTreeMap::new();
    claims.insert("sub", serde_json::Value::from(sub));
    claims.insert("exp", serde_json::Value::from(exp));
    claims.insert("type", serde_json::Value::from(token_type));
    let key = jsonwebtoken::EncodingKey::from_secret(secret.as_bytes());
    jsonwebtoken::encode(&jsonwebtoken::Header::default(), &claims, &key).map_err(|e| e.to_string())
}

/// The claims read out of a token whose signature holds; a claim that is
/// missing or of the wrong JSON type is `None`.
#[derive(Debug)]
pub struct DecodedClaims {
    pub sub: Option<String>,
    pub exp: Option<u64>,
    pub token_type: Option<String>,
}

/// `d` holds exactly the claims `sub`, `token_type` and `exp`.
pub open spec fn decoded_as(d: DecodedClaims, sub: Seq<char>, token_type: Seq<char>, exp: int) -> bool {
    &&& d.sub matches Some(s) && s@ == sub
    &&& d.token_type matches Some(t) && t@ == token_type
    &&& d.exp == Some(exp as u64)
}

/// `r` gives back the claims of `token` wherever `token` is one that
/// `jwt_encoded` describes under `secret`.
pub open spec fn gives_back_claims(
    token: Seq<char>,
    secret: Seq<char>,
    r: Result<DecodedClaims, String>,
) -> bool {
    forall|sub: Seq<char>, token_type: Seq<char>, exp: int|
        #![trigger jwt_encoded(sub, token_type, exp, secret)]
        0 <= exp <= u64::MAX && token == jwt_encoded(
            sub,
            token_type,
            exp,
            secret,
        ) ==> (r matches Ok(d) && decoded_as(d, sub, token_type, exp))
}

/// The number of `.` separators in `s`.
pub open spec fn dot_count(s: Seq<char>) -> nat
    decreases s.len(),
{
    if s.len() == 0 {
        0
    } else {
        dot_count(s.drop_last()) + if s.last() == '.' {
            1nat
        } else {
            0nat
        }
    }
}

/// Relies on jsonwebtoken::decode with HS256 and its expiry check switched off:
/// it checks the signature and reads the payload, so a token that
/// jsonwebtoken::encode made with the same secret gives its claims back, and a
/// string without a header, payload and signature separated by dots is refused.
#[verifier::external_body]
fn jwt_decode(token: &str, secret: &str) -> (r: Result<DecodedClaims, String>)
    ensures
        gives_back_claims(token@, secret@, r),
        dot_count(token@) < 2 ==> r is Err,
{
    let mut validation = jsonwebtoken::Validation::new(jsonwebtoken::Algorithm::HS256);
    validation.validate_exp = false;
    let key = jsonwebtoken::DecodingKey::from_secret(secret.as_bytes());
    let claims = jsonwebtoken::decode::<serde_json::Value>(token, &key, &validation)
        .map_err(|e| e.to_string())?.claims;
    Ok(DecodedClaims {
        sub: claims.get("sub").and_then(serde_json::Value::as_str).map(String::from),
        exp: claims.get("exp").and_then(serde_json::Value::as_u64),
        token_type: claims.get("type").and_then(serde_json::Value::as_str).map(String::from),
    })
}

/// Signs a token of kind `token_type` for `user_id` that expires at `expiration_timestamp`.
pub fn generate_token(user_id: &str, token_type: &str, expiration_timestamp: u64, secret: &str) -> (r:
    Result<String, AuthError>)
    ensures
        r is Ok,
        r matches Ok(t) ==> t@ == jwt_encoded(
            user_id@,
            token_type@,
            expiration_timestamp as int,
            secret@,
        ),
{
    match jwt_encode(user_id, token_type, expiration_timestamp, secret) {
        Ok(t) => Ok(t),
        Err(_) => Err(AuthError::SigningFailure),
    }
}

/// `r` is what `check_claims` makes of the decoding outcome `d` at time `now`.
pub open spec fn claims_checked(
    d: Result<DecodedClaims, String>,
    now: u64,
    r: Result<JwtClaims, AuthError>,
) -> bool {
    match d {
        Err(e) => r matches Err(AuthError::InvalidSignatureOrExpiry(m)) && m@ == e@,
        Ok(d) => match (d.sub, d.exp, d.token_type) {
            (Some(s), Some(x), Some(t)) => if x <= now {
                r matches Err(AuthError::InvalidSignatureOrExpiry(m)) && m@ == EXPIRED@
            } else {
                r == Ok::<JwtClaims, AuthError>(JwtClaims { sub: s, exp: x, token_type: t })
            },
            _ => r matches Err(AuthError::InvalidSignatureOrExpiry(m)) && m@ == MISSING_CLAIM@,
        },
    }
}

/// Turns the outcome of a signature check into claims, refusing a token with a
/// missing claim or one whose expiry is not after `now`.
pub fn check_claims(decoded: Result<DecodedClaims, String>, now: u64) -> (r: Result<
    JwtClaims,
    AuthError,
>)
    ensures
        claims_checked(decoded, now, r),
{
    match decoded {
        Err(e) => Err(AuthError::InvalidSignatureOrExpiry(e)),
        Ok(d) => match (d.sub, d.exp, d.token_type) {
            (Some(s), Some(x), Some(t)) => {
                if x <= now {
                    Err(AuthError::InvalidSignatureOrExpiry(EXPIRED.to_owned()))
                } else {
                    Ok(JwtClaims { sub: s, exp: x, token_type: t })
                }
            },
            _ => Err(AuthError::InvalidSignatureOrExpiry(MISSING_CLAIM.to_owned())),
        },
    }
}

/// Checks the signature of `token` under `secret` and its expiry against `now`,
/// and reads its claims.
pub fn decode_claims(token: &str, secret: &str, now: u64) -> (r: Result<JwtClaims, AuthError>)
    ensures
        exists|d: Result<DecodedClaims, String>| claims_checked(d, now, r),
        r is Err ==> r matches Err(AuthError::InvalidSignatureOrExpiry(_)),
        r matches Ok(c) ==> c.exp > now,
        // a string that is no signed token is refused
        dot_count(token@) < 2 ==> r matches Err(AuthError::InvalidSignatureOrExpiry(_)),
        // a token signed here with the same secret gives back its claims
        forall|sub: Seq<char>, token_type: Seq<char>, exp: int|
            #![trigger jwt_encoded(sub, token_type, exp, secret@)]
            now < exp <= u64::MAX && token@ == jwt_encoded(
                sub,
                token_type,
                exp,
                secret@,
            ) ==> (r matches Ok(c) && c.sub@ == sub && c.token_type@ == token_type && c.exp
                == exp),
        // and is refused once its expiry is reached
        forall|sub: Seq<char>, token_type: Seq<char>, exp: int|
            #![trigger jwt_encoded(sub, token_type, exp, secret@)]
            0 <= exp <= now && token@ == jwt_encoded(
                sub,
                token_type,
                exp,
                secret@,
            ) ==> r matches Err(AuthError::InvalidSignatureOrExpiry(_)),
{
    let decoded = jwt_decode(token, secret);
    let ghost d = decoded;
    let r = check_claims(decoded, now);
    assert(claims_checked(d, now, r));
    r
}

} // verus!
