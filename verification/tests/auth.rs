use base64::Engine;
use image_api::middleware::auth::{
    claims_from_decoded, create_auth_token, encode_auth_token, validate_auth_token, AuthError,
    Claims, CHECKING_SECRET, SIGNING_SECRET, TOKEN_LIFETIME_SECS,
};

fn part(token: &str, i: usize) -> String {
    let p = token.split('.').nth(i).unwrap();
    String::from_utf8(base64::engine::general_purpose::URL_SAFE_NO_PAD.decode(p).unwrap()).unwrap()
}

fn token_signed_with(secret: &str, exp: u64, iat: u64) -> String {
    let claims = std::collections::BTreeMap::from([("exp", exp), ("iat", iat)]);
    jsonwebtoken::encode(
        &jsonwebtoken::Header::default(),
        &claims,
        &jsonwebtoken::EncodingKey::from_secret(secret.as_bytes()),
    )
    .unwrap()
}

#[test]
fn claims_issued_at_expire_a_day_later() {
    let c = Claims::issued_at(1_700_000_000, 1_700_000_001);
    assert_eq!(c, Claims { iat: 1_700_000_000, exp: 1_700_086_401 });
    assert_eq!(TOKEN_LIFETIME_SECS, 86400);
}

#[test]
fn claims_new_uses_the_clock() {
    let now = jsonwebtoken::get_current_timestamp();
    let c = Claims::new();
    assert!(c.iat >= now && c.iat <= now + 5);
    assert!(c.exp >= c.iat + TOKEN_LIFETIME_SECS && c.exp <= c.iat + TOKEN_LIFETIME_SECS + 5);
}

#[test]
fn encoded_token_carries_header_and_claims() {
    let c = Claims { exp: 2_000_086_400, iat: 2_000_000_000 };
    let t = encode_auth_token(&c);
    assert_eq!(t.split('.').count(), 3);
    assert_eq!(part(&t, 0), "{\"typ\":\"JWT\",\"alg\":\"HS256\"}");
    assert_eq!(part(&t, 1), "{\"exp\":2000086400,\"iat\":2000000000}");
    assert_eq!(t, token_signed_with(SIGNING_SECRET, c.exp, c.iat));
    assert_eq!(t, encode_auth_token(&c));
    assert_ne!(t, encode_auth_token(&Claims { exp: c.exp + 1, iat: c.iat }));
}

#[test]
fn created_token_is_refused_by_the_checking_secret() {
    let t = create_auth_token();
    assert_eq!(validate_auth_token(t), Err(AuthError::InvalidToken));
}

#[test]
fn token_signed_with_checking_secret_is_accepted() {
    let now = jsonwebtoken::get_current_timestamp();
    let t = token_signed_with(CHECKING_SECRET, now + 1000, now);
    assert_eq!(validate_auth_token(t), Ok(Claims { exp: now + 1000, iat: now }));
}

#[test]
fn expired_or_malformed_tokens_are_refused() {
    let now = jsonwebtoken::get_current_timestamp();
    let expired = token_signed_with(CHECKING_SECRET, now - 1000, now - 2000);
    assert_eq!(validate_auth_token(expired), Err(AuthError::InvalidToken));
    assert_eq!(validate_auth_token("not a token".to_string()), Err(AuthError::InvalidToken));
}

#[test]
fn claims_need_both_entries() {
    assert_eq!(claims_from_decoded(Some((Some(5), Some(3)))), Ok(Claims { exp: 5, iat: 3 }));
    assert_eq!(claims_from_decoded(Some((Some(5), None))), Err(AuthError::InvalidToken));
    assert_eq!(claims_from_decoded(Some((None, Some(3)))), Err(AuthError::InvalidToken));
    assert_eq!(claims_from_decoded(None), Err(AuthError::InvalidToken));
}

#[test]
fn auth_errors_map_to_status_and_message() {
    let cases = [
        (AuthError::WrongCredentials, 401, "Wrong Credntials"),
        (AuthError::MissingCredintials, 400, "Missing Credentials"),
        (AuthError::InvalidTokenCreation, 500, "Error Creating Token"),
        (AuthError::InvalidToken, 400, "Invalid Token"),
    ];
    for (e, status, message) in cases {
        assert_eq!(e.status_code(), status);
        assert_eq!(e.message(), message);
        let r = e.into_reply();
        assert_eq!(r.status, status);
        assert_eq!(String::from_utf8(r.body).unwrap(), format!("{{\"error\":\"{}\"}}", message));
    }
}

#[test]
fn signed_token_reads_back_under_the_signing_secret() {
    let c = Claims { exp: 4_000_000_000, iat: 3_999_000_000 };
    let t = encode_auth_token(&c);
    let data = jsonwebtoken::decode::<std::collections::BTreeMap<String, u64>>(
        &t,
        &jsonwebtoken::DecodingKey::from_secret(SIGNING_SECRET.as_bytes()),
        &jsonwebtoken::Validation::default(),
    )
    .unwrap();
    assert_eq!(data.claims.get("exp"), Some(&c.exp));
    assert_eq!(data.claims.get("iat"), Some(&c.iat));
    let fresh = create_auth_token();
    let back = jsonwebtoken::decode::<std::collections::BTreeMap<String, u64>>(
        &fresh,
        &jsonwebtoken::DecodingKey::from_secret(SIGNING_SECRET.as_bytes()),
        &jsonwebtoken::Validation::default(),
    )
    .unwrap();
    assert_eq!(back.claims["exp"], back.claims["iat"] + TOKEN_LIFETIME_SECS);
}
