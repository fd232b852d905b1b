use auth_token::codec::{check_claims, decode_claims, generate_token, DecodedClaims, ACCESS, REFRESH};
use auth_token::credential::{
    authorize_refresh_claims, has_suffix, is_client_listed, verify_google_oauth_token,
    verify_refresh_token, verify_refresh_token_at,
};
use auth_token::errors::{AuthError, HttpError, BAD_HEADER, NO_HEADER};
use auth_token::header::{parse_authorization, Credential};
use auth_token::issuer::{get_auth_token, issue_tokens};
use auth_token::model::{
    GoogleTokenInfoResponse, GoogleTokenInfoSuccessResponse, GoogleUserInfoErrorResponse,
    GoogleUserInfoResponse, GoogleUserInfoSuccessResponse, JwtClaims, OAuthInfo,
    UserAuthorization,
};

const SECRET: &str = "test-signing-secret";
const NOW: u64 = 1_700_000_000;

fn profile(email: &str, verified: bool) -> GoogleUserInfoResponse {
    GoogleUserInfoResponse::Success(GoogleUserInfoSuccessResponse {
        sub: "1234567890".to_string(),
        name: "Ada Lovelace".to_string(),
        family_name: "Lovelace".to_string(),
        given_name: "Ada".to_string(),
        picture: "https://example.com/ada.png".to_string(),
        email: email.to_string(),
        email_verified: verified,
    })
}

fn audience(aud: &str) -> GoogleTokenInfoResponse {
    GoogleTokenInfoResponse::Success(GoogleTokenInfoSuccessResponse { aud: aud.to_string() })
}

fn provider_error(description: &str) -> GoogleUserInfoErrorResponse {
    GoogleUserInfoErrorResponse {
        error: "invalid_token".to_string(),
        error_description: description.to_string(),
    }
}

fn oauth_user() -> UserAuthorization {
    UserAuthorization {
        user_id: "user-1".to_string(),
        oauth_info: Some(OAuthInfo {
            email: "user@scu.edu".to_string(),
            name: "User".to_string(),
            photo_url: "https://example.com/u.png".to_string(),
        }),
    }
}

#[test]
fn missing_header_is_bad_request() {
    let e = parse_authorization(None).unwrap_err();
    assert!(matches!(e, AuthError::MissingAuthHeader));
    let h = e.to_http_error();
    assert_eq!(h.status, 400);
    assert_eq!(h.message, NO_HEADER);
}

#[test]
fn basic_scheme_is_malformed() {
    let e = parse_authorization(Some(Ok("Basic abc"))).unwrap_err();
    assert!(matches!(e, AuthError::MalformedAuthHeader));
    let h = e.to_http_error();
    assert_eq!(h.status, 400);
    assert_eq!(h.message, BAD_HEADER);
}

#[test]
fn header_shapes() {
    assert!(matches!(parse_authorization(Some(Ok("OAuth tok"))), Ok(Credential::OAuth(t)) if t == "tok"));
    assert!(matches!(parse_authorization(Some(Ok("Bearer r.t.s"))), Ok(Credential::Refresh(t)) if t == "r.t.s"));
    assert!(matches!(parse_authorization(Some(Ok("Bearer "))), Ok(Credential::Refresh(t)) if t.is_empty()));
    for bad in ["Bearer", "Bearer a b", "Bearer  a", "", " ", "oauth tok", "Bearertok"] {
        assert!(matches!(parse_authorization(Some(Ok(bad))), Err(AuthError::MalformedAuthHeader)), "{bad}");
    }
    assert!(matches!(parse_authorization(Some(Err(()))), Err(AuthError::MalformedAuthHeader)));
}

#[test]
fn client_not_in_allow_list_is_refused() {
    let r = verify_google_oauth_token(
        Some(audience("other-client")),
        Some(profile("user@scu.edu", true)),
        "client-a client-b",
    );
    let e = r.unwrap_err();
    assert!(matches!(e, AuthError::ClientNotAllowed));
    assert_eq!(e.status(), 401);
    assert_eq!(e.message(), "OAuth client not allowed.");
}

#[test]
fn allowed_client_with_verified_school_email_gets_both_tokens() {
    let auth = verify_google_oauth_token(
        Some(audience("client-b")),
        Some(profile("user@scu.edu", true)),
        "client-a client-b",
    )
    .unwrap();
    assert_eq!(auth.user_id, "1234567890");
    let info = auth.oauth_info.clone().unwrap();
    assert_eq!(info.email, "user@scu.edu");
    assert_eq!(info.name, "Ada Lovelace");
    assert_eq!(info.photo_url, "https://example.com/ada.png");
    let resp = get_auth_token(auth, SECRET).unwrap();
    assert!(!resp.access_token.is_empty());
    assert!(resp.refresh_token.is_some());
    assert!(resp.o_auth_info.is_some());
}

#[test]
fn email_outside_domain_is_refused() {
    let r = verify_google_oauth_token(Some(audience("c")), Some(profile("user@gmail.com", true)), "c");
    assert!(matches!(r, Err(AuthError::DomainNotAllowed)));
    let r = verify_google_oauth_token(Some(audience("c")), Some(profile("scu.edu", true)), "c");
    assert!(matches!(r, Err(AuthError::DomainNotAllowed)));
}

#[test]
fn unverified_email_is_refused() {
    let r = verify_google_oauth_token(Some(audience("c")), Some(profile("user@scu.edu", false)), "c");
    let e = r.unwrap_err();
    assert!(matches!(e, AuthError::EmailNotVerified));
    assert_eq!(e.to_http_error().status, 401);
}

#[test]
fn provider_errors_keep_their_description() {
    let r = verify_google_oauth_token(
        Some(GoogleTokenInfoResponse::Error(provider_error("Invalid Value"))),
        Some(profile("user@scu.edu", true)),
        "c",
    );
    let e = r.unwrap_err();
    assert_eq!(e.status(), 401);
    assert_eq!(e.message(), "error fetching your info from Google (Invalid Value).");
    let r = verify_google_oauth_token(
        Some(audience("c")),
        Some(GoogleUserInfoResponse::Error(provider_error("expired"))),
        "c",
    );
    assert!(matches!(r, Err(AuthError::ProviderError(d)) if d == "expired"));
}

#[test]
fn unreachable_provider_is_internal() {
    let e = verify_google_oauth_token(None, Some(profile("user@scu.edu", true)), "c").unwrap_err();
    assert!(matches!(e, AuthError::ProviderUnreachable));
    assert_eq!(e.status(), 500);
    assert_eq!(e.message(), "error fetching your info from Google, please try again.");
    let e = verify_google_oauth_token(Some(audience("c")), None, "c").unwrap_err();
    assert!(matches!(e, AuthError::ProviderUnreachable));
    // the introspection answer is judged first
    let e = verify_google_oauth_token(Some(audience("x")), None, "c").unwrap_err();
    assert!(matches!(e, AuthError::ClientNotAllowed));
}

#[test]
fn bearer_refresh_token_gets_access_token_only() {
    let token = generate_token("user-7", REFRESH, NOW + 1000, SECRET).unwrap();
    let header = format!("Bearer {token}");
    let cred = parse_authorization(Some(Ok(header.as_str()))).unwrap();
    let value = match cred {
        Credential::Refresh(v) => v,
        Credential::OAuth(_) => panic!("wrong scheme"),
    };
    let auth = verify_refresh_token_at(&value, SECRET, NOW).unwrap();
    assert_eq!(auth.user_id, "user-7");
    assert!(auth.oauth_info.is_none());
    let resp = issue_tokens(auth, SECRET, NOW).unwrap();
    assert!(!resp.access_token.is_empty());
    assert!(resp.refresh_token.is_none());
    assert!(resp.o_auth_info.is_none());
}

#[test]
fn refresh_token_names_its_user_and_access_token_is_refused() {
    let refresh = generate_token("user-9", REFRESH, NOW + 60, SECRET).unwrap();
    let claims = decode_claims(&refresh, SECRET, NOW).unwrap();
    assert_eq!(claims.token_type, "refresh");
    assert_eq!(claims.sub, "user-9");
    let access = generate_token("user-9", ACCESS, NOW + 60, SECRET).unwrap();
    let e = verify_refresh_token_at(&access, SECRET, NOW).unwrap_err();
    assert!(matches!(e, AuthError::WrongTokenKind));
    assert_eq!(e.status(), 401);
    assert_eq!(
        e.message(),
        "invalid token type (provided access token, expected refresh token)"
    );
}

#[test]
fn other_secret_is_refused() {
    let token = generate_token("user-1", REFRESH, NOW + 60, SECRET).unwrap();
    let e = decode_claims(&token, "another-secret", NOW).unwrap_err();
    assert!(matches!(e, AuthError::InvalidSignatureOrExpiry(_)));
    assert_eq!(e.status(), 401);
    assert!(e.message().starts_with("could not verify refresh token ("));
    let e = verify_refresh_token_at(&token, "another-secret", NOW).unwrap_err();
    assert!(matches!(e, AuthError::InvalidSignatureOrExpiry(_)));
}

#[test]
fn claims_round_trip() {
    let token = generate_token("someone@example.com", ACCESS, NOW + 604800, SECRET).unwrap();
    let claims = decode_claims(&token, SECRET, NOW).unwrap();
    assert_eq!(claims.sub, "someone@example.com");
    assert_eq!(claims.token_type, "access");
    assert_eq!(claims.exp, NOW + 604800);
    assert_eq!(token.split('.').count(), 3);
}

#[test]
fn claims_round_trip_with_escaped_subject() {
    let sub = "quote\" back\\slash tab\t \u{e9}\u{1f600}";
    let token = generate_token(sub, REFRESH, NOW + 5, "k\u{e9}y").unwrap();
    let claims = decode_claims(&token, "k\u{e9}y", NOW).unwrap();
    assert_eq!(claims.sub, sub);
    assert_eq!(claims.exp, NOW + 5);
    assert_eq!(claims.token_type, "refresh");
}

#[test]
fn token_expiring_now_is_refused() {
    let token = generate_token("user-1", REFRESH, NOW, SECRET).unwrap();
    let e = verify_refresh_token_at(&token, SECRET, NOW).unwrap_err();
    assert!(matches!(&e, AuthError::InvalidSignatureOrExpiry(m) if m == "ExpiredSignature"));
    assert_eq!(e.message(), "could not verify refresh token (ExpiredSignature)");
    let earlier = generate_token("user-1", REFRESH, NOW - 1, SECRET).unwrap();
    assert!(matches!(
        verify_refresh_token_at(&earlier, SECRET, NOW),
        Err(AuthError::InvalidSignatureOrExpiry(_))
    ));
    let later = generate_token("user-1", REFRESH, NOW + 1, SECRET).unwrap();
    assert!(verify_refresh_token_at(&later, SECRET, NOW).is_ok());
}

#[test]
fn garbage_token_is_refused() {
    assert!(matches!(
        verify_refresh_token("not-a-token", SECRET),
        Err(AuthError::InvalidSignatureOrExpiry(_))
    ));
}

#[test]
fn current_time_refresh_path() {
    let far = 4_000_000_000u64;
    let token = generate_token("user-3", REFRESH, far, SECRET).unwrap();
    let auth = verify_refresh_token(&token, SECRET).unwrap();
    assert_eq!(auth.user_id, "user-3");
    let access = generate_token("user-3", ACCESS, far, SECRET).unwrap();
    assert!(matches!(verify_refresh_token(&access, SECRET), Err(AuthError::WrongTokenKind)));
}

#[test]
fn check_claims_cases() {
    let full = |exp| DecodedClaims {
        sub: Some("u".to_string()),
        exp: Some(exp),
        token_type: Some("refresh".to_string()),
    };
    let c = check_claims(Ok(full(11)), 10).unwrap();
    assert_eq!((c.sub.as_str(), c.exp, c.token_type.as_str()), ("u", 11, "refresh"));
    assert!(matches!(check_claims(Ok(full(10)), 10), Err(AuthError::InvalidSignatureOrExpiry(m)) if m == "ExpiredSignature"));
    let missing = DecodedClaims { sub: None, exp: Some(11), token_type: Some("refresh".to_string()) };
    assert!(matches!(check_claims(Ok(missing), 10), Err(AuthError::InvalidSignatureOrExpiry(m)) if m == "Missing required claim"));
    assert!(matches!(check_claims(Err("InvalidSignature".to_string()), 10), Err(AuthError::InvalidSignatureOrExpiry(m)) if m == "InvalidSignature"));
}

#[test]
fn refresh_claims_kind() {
    let claims = |t: &str| JwtClaims { sub: "u".to_string(), exp: 5, token_type: t.to_string() };
    assert_eq!(authorize_refresh_claims(Ok(claims("refresh"))).unwrap().user_id, "u");
    assert!(matches!(authorize_refresh_claims(Ok(claims("access"))), Err(AuthError::WrongTokenKind)));
    assert!(matches!(authorize_refresh_claims(Err(AuthError::SigningFailure)), Err(AuthError::SigningFailure)));
}

#[test]
fn issued_tokens_carry_expiries() {
    let resp = issue_tokens(oauth_user(), SECRET, 0).unwrap();
    assert_eq!(resp.access_token_expiration_date, "1970-01-08T00:00:00+00:00");
    let access = decode_claims(&resp.access_token, SECRET, 0).unwrap();
    assert_eq!((access.sub.as_str(), access.exp, access.token_type.as_str()), ("user-1", 604800, "access"));
    let refresh = decode_claims(resp.refresh_token.as_ref().unwrap(), SECRET, 0).unwrap();
    assert_eq!((refresh.exp, refresh.token_type.as_str()), (2592000, "refresh"));
    assert_eq!(resp.o_auth_info.unwrap().email, "user@scu.edu");
}

#[test]
fn issuing_past_year_9999_fails() {
    let last = issue_tokens(oauth_user(), SECRET, 253402300799).unwrap();
    assert_eq!(last.access_token_expiration_date, "+10000-01-07T23:59:59+00:00");
    let e = issue_tokens(oauth_user(), SECRET, 253402300800).unwrap_err();
    assert!(matches!(e, AuthError::SerializationFailure));
    assert_eq!(e.status(), 500);
    assert_eq!(e.message(), "Something went wrong, please try again.");
}

#[test]
fn allow_list_membership() {
    assert!(is_client_listed("a b c", "b"));
    assert!(is_client_listed("a b c", "a"));
    assert!(is_client_listed("a b c", "c"));
    assert!(!is_client_listed("a bb c", "b"));
    assert!(!is_client_listed("a b c", "a b"));
    assert!(!is_client_listed("abc", "b"));
    assert!(is_client_listed("", ""));
    assert!(!is_client_listed("a", ""));
}

#[test]
fn suffix_check() {
    assert!(has_suffix("user@scu.edu", "@scu.edu"));
    assert!(!has_suffix("user@scu.edu.com", "@scu.edu"));
    assert!(!has_suffix("edu", "@scu.edu"));
}

#[test]
fn http_error_new_keeps_fields() {
    let e = HttpError::new("boom", 418);
    assert_eq!(e.message, "boom");
    assert_eq!(e.status, 418);
    assert_eq!(AuthError::SigningFailure.to_http_error().status, 500);
    assert_eq!(AuthError::MalformedAuthHeader.status(), 400);
}

#[test]
fn non_token_string_is_refused() {
    for bad in ["abc", "a.b", ""] {
        let e = decode_claims(bad, SECRET, NOW).unwrap_err();
        assert!(matches!(e, AuthError::InvalidSignatureOrExpiry(_)), "{bad}");
        let h = e.to_http_error();
        assert_eq!(h.status, 401);
        assert!(h.message.starts_with("could not verify refresh token ("));
    }
    let e = verify_refresh_token("abc", SECRET).unwrap_err();
    assert_eq!(e.status(), 401);
    assert!(e.message().starts_with("could not verify refresh token ("));
}

#[test]
fn signing_is_deterministic() {
    let a = generate_token("user-1", ACCESS, NOW + 10, SECRET).unwrap();
    let b = generate_token("user-1", ACCESS, NOW + 10, SECRET).unwrap();
    assert_eq!(a, b);
    let c = generate_token("user-1", ACCESS, NOW + 11, SECRET).unwrap();
    assert_ne!(a, c);
}

#[test]
fn empty_secret_round_trip() {
    let token = generate_token("user-1", REFRESH, NOW + 10, "").unwrap();
    let auth = verify_refresh_token_at(&token, "", NOW).unwrap();
    assert_eq!(auth.user_id, "user-1");
    let access = generate_token("user-1", ACCESS, NOW + 10, "").unwrap();
    assert!(matches!(verify_refresh_token_at(&access, "", NOW), Err(AuthError::WrongTokenKind)));
}
