//! Access tokens: their claims, how they are signed and checked, and the
//! replies sent when authentication fails.

use vstd::prelude::*;
use vstd::utf8::encode_utf8;
use crate::json::{json_object_of_string, json_object_text};
use crate::reply::{
    ContentType, Reply, STATUS_BAD_REQUEST, STATUS_INTERNAL_SERVER_ERROR, STATUS_UNAUTHORIZED,
};

verus! {

/// How long a token stays valid after it is issued, in seconds (one day).
pub const TOKEN_LIFETIME_SECS: u64 = 86400;

/// The secret that tokens are signed with.
pub const SIGNING_SECRET: &'static str = "secret";

/// The secret that tokens are checked against. It differs from
/// `SIGNING_SECRET`, so a token signed here is refused here.
pub const CHECKING_SECRET: &'static str = "SECRET.as_ref()";

/// The claims a token carries: its expiry and its issue time, in seconds
/// since the Unix epoch.
#[derive(Clone, Copy, Debug, PartialEq, Eq, Structural)]
pub struct Claims {
    pub exp: u64,
    pub iat: u64,
}

#[verifier::external_type_specification]
#[verifier::external_body]
pub struct ExJwtHeader(jsonwebtoken::Header);

/// The three parts of a token.
pub struct AuthBody {
    pub header: jsonwebtoken::Header,
    pub payload: Claims,
    pub signature: String,
}

/// Why a request could not be authenticated.
#[derive(Clone, Copy, Debug, PartialEq, Eq, Structural)]
pub enum AuthError {
    WrongCredentials,
    MissingCredintials,
    InvalidToken,
    InvalidTokenCreation,
}

/// Calls `jsonwebtoken::get_current_timestamp`, the seconds since the Unix
/// epoch by the system clock. Nothing is stated of the value; it panics when
/// the clock reads before 1970.
#[verifier::external_body]
fn current_timestamp() -> (now: u64) {
    jsonwebtoken::get_current_timestamp()
}

/// The token that `jsonwebtoken::encode` makes from the default header
/// (HS256), the claims `{"exp":exp,"iat":iat}` and an HMAC key made from
/// `secret`.
pub uninterp spec fn jwt_encode_hs256(exp: u64, iat: u64, secret: Seq<u8>) -> Seq<char>;

/// Calls `jsonwebtoken::encode` with `Header::default()`, the claims as the
/// map `{"exp": exp, "iat": iat}` (which serialises as the two-field claims
/// struct does) and `EncodingKey::from_secret(secret)`. The result is a
/// function of these arguments alone and is given the name `jwt_encode_hs256`.
/// The source cannot fail here: the HMAC key's family matches HS256,
/// serialising the header and a map of integers cannot fail, and HMAC signing
/// returns `Ok`. Decoding the token under the same secret checks the signature
/// it was made with and reads back `exp` and `iat` as unsigned integers.
#[verifier::external_body]
fn jwt_encode(exp: u64, iat: u64, secret: &[u8]) -> (r: String)
    ensures
        jwt_encode_hs256(exp, iat, secret@) == r@,
        jwt_hs256_verified_claims(r@, secret@) == Some((Some(exp), Some(iat))),
{
    let claims = std::collections::BTreeMap::from([("exp", exp), ("iat", iat)]);
    let key = jsonwebtoken::EncodingKey::from_secret(secret);
    jsonwebtoken::encode(&jsonwebtoken::Header::default(), &claims, &key).unwrap_or_default()
}

/// What `jsonwebtoken::decode` yields for `token` under the HS256 key made
/// from `secret`, before it compares the claims with the clock: `None` where
/// the token's form or header is refused, its signature does not match, or its
/// claims are not a JSON object; otherwise the `exp` and `iat` entries, each
/// taken where it is an unsigned integer (where a key repeats, its last entry).
pub uninterp spec fn jwt_hs256_verified_claims(token: Seq<char>, secret: Seq<u8>) -> Option<
    (Option<u64>, Option<u64>),
>;

/// Calls `jsonwebtoken::decode` with `DecodingKey::from_secret(secret)` and
/// `Validation::default()` (HS256 only, an `exp` claim required and compared
/// with the system clock, 60 s leeway), reading the claims as a JSON object
/// whose `exp` and `iat` entries are taken where they are unsigned integers
/// (a key that repeats keeps its last entry, where a two-field claims struct
/// would refuse the token). `None` stands for a refused token. The source checks the signature and
/// reads the claims first, a function of the token and the key alone (named
/// `jwt_hs256_verified_claims`), and then checks them against the clock; so
/// an accepted token gives exactly those claims. A token that `encode` made
/// under the same secret carries only `exp` and `iat`; where `exp` is the
/// largest timestamp no clock reading makes it expired (the check is
/// `exp < now - 60`), so it is accepted. Which other tokens the clock lets
/// through is not stated.
#[verifier::external_body]
fn jwt_decode(token: &str, secret: &[u8]) -> (r: Option<(Option<u64>, Option<u64>)>)
    ensures
        r matches Some(claims) ==> jwt_hs256_verified_claims(token@, secret@) == Some(claims),
        forall|iat: u64|
            token@ == #[trigger] jwt_encode_hs256(u64::MAX, iat, secret@) ==> r == Some(
                (Some(u64::MAX), Some(iat)),
            ),
{
    let key = jsonwebtoken::DecodingKey::from_secret(secret);
    let validation = jsonwebtoken::Validation::default();
    match jsonwebtoken::decode::<std::collections::BTreeMap<String, serde_json::Value>>(
        token,
        &key,
        &validation,
    ) {
        Ok(data) => Some((
            data.claims.get("exp").and_then(serde_json::Value::as_u64),
            data.claims.get("iat").and_then(serde_json::Value::as_u64),
        )),
        Err(_) => None,
    }
}

impl Claims {
    /// Claims issued at `iat` that expire one day after `now`.
    pub fn issued_at(iat: u64, now: u64) -> (c: Claims)
        requires
            now + TOKEN_LIFETIME_SECS <= u64::MAX,
        ensures
            c.iat == iat,
            c.exp == now + TOKEN_LIFETIME_SECS,
    {
        Claims { iat, exp: now + TOKEN_LIFETIME_SECS }
    }

    /// Claims for a token issued now, expiring one day later. The clock is
    /// read once for the issue time and once more for the expiry; an expiry
    /// past the largest timestamp is held at the largest timestamp.
    pub fn new() -> (c: Claims)
        ensures
            c.exp >= TOKEN_LIFETIME_SECS,
    {
        let iat: u64 = current_timestamp();
        let now: u64 = current_timestamp();
        if now <= u64::MAX - TOKEN_LIFETIME_SECS {
            Claims::issued_at(iat, now)
        } else {
            Claims { iat, exp: u64::MAX }
        }
    }
}

/// The token signed for `claims` with `SIGNING_SECRET`; checked against the
/// same secret, it gives back these claims.
pub fn encode_auth_token(claims: &Claims) -> (t: String)
    ensures
        t@ == jwt_encode_hs256(claims.exp, claims.iat, encode_utf8(SIGNING_SECRET@)),
        jwt_hs256_verified_claims(t@, encode_utf8(SIGNING_SECRET@)) == Some(
            (Some(claims.exp), Some(claims.iat)),
        ),
{
    jwt_encode(claims.exp, claims.iat, SIGNING_SECRET.as_bytes())
}

/// `token` is a token signed with `SIGNING_SECRET` for claims that expire at
/// least a day after the epoch, and checked against that secret it gives back
/// those claims.
pub open spec fn is_signed_token(token: Seq<char>) -> bool {
    exists|exp: u64, iat: u64|
        {
            &&& exp >= TOKEN_LIFETIME_SECS
            &&& #[trigger] jwt_encode_hs256(exp, iat, encode_utf8(SIGNING_SECRET@)) == token
            &&& jwt_hs256_verified_claims(token, encode_utf8(SIGNING_SECRET@)) == Some(
                (Some(exp), Some(iat)),
            )
        }
}

/// A new token for claims issued now.
pub fn create_auth_token() -> (t: String)
    ensures
        is_signed_token(t@),
{
    let claims = Claims::new();
    encode_auth_token(&claims)
}

/// A token whose signature matches `CHECKING_SECRET` and whose claims carry
/// both `exp` and `iat` as unsigned integers.
pub open spec fn passes_signature_check(token: Seq<char>) -> bool {
    jwt_hs256_verified_claims(token, encode_utf8(CHECKING_SECRET@)) matches Some((Some(_), Some(_)))
}

/// The claims of a decoded token: both `exp` and `iat` must be present.
pub open spec fn spec_claims_from_decoded(decoded: Option<(Option<u64>, Option<u64>)>) -> Result<
    Claims,
    AuthError,
> {
    match decoded {
        Some((Some(exp), Some(iat))) => Ok(Claims { exp, iat }),
        _ => Err(AuthError::InvalidToken),
    }
}

/// Turns what token decoding gave into claims, or `InvalidToken`.
pub fn claims_from_decoded(decoded: Option<(Option<u64>, Option<u64>)>) -> (r: Result<
    Claims,
    AuthError,
>)
    ensures
        r == spec_claims_from_decoded(decoded),
{
    match decoded {
        Some((Some(exp), Some(iat))) => Ok(Claims { exp, iat }),
        _ => Err(AuthError::InvalidToken),
    }
}

/// Checks a token against `CHECKING_SECRET` and the clock and returns its
/// claims, or `InvalidToken`. Claims are returned only where the token's
/// signature matches that secret and it carries both `exp` and `iat`, and
/// they are the token's own.
pub fn validate_auth_token(token: String) -> (r: Result<Claims, AuthError>)
    ensures
        match r {
            Ok(c) => jwt_hs256_verified_claims(token@, encode_utf8(CHECKING_SECRET@)) == Some(
                (Some(c.exp), Some(c.iat)),
            ),
            Err(e) => e == AuthError::InvalidToken,
        },
        forall|iat: u64|
            token@ == #[trigger] jwt_encode_hs256(u64::MAX, iat, encode_utf8(CHECKING_SECRET@))
                ==> r == Ok::<Claims, AuthError>(Claims { exp: u64::MAX, iat }),
{
    claims_from_decoded(jwt_decode(token.as_str(), CHECKING_SECRET.as_bytes()))
}

/// The status each authentication error is answered with.
pub open spec fn auth_error_status(e: AuthError) -> u16 {
    match e {
        AuthError::WrongCredentials => STATUS_UNAUTHORIZED,
        AuthError::MissingCredintials => STATUS_BAD_REQUEST,
        AuthError::InvalidTokenCreation => STATUS_INTERNAL_SERVER_ERROR,
        AuthError::InvalidToken => STATUS_BAD_REQUEST,
    }
}

/// The message each authentication error is answered with.
pub open spec fn auth_error_message(e: AuthError) -> Seq<char> {
    match e {
        AuthError::WrongCredentials => "Wrong Credntials"@,
        AuthError::MissingCredintials => "Missing Credentials"@,
        AuthError::InvalidTokenCreation => "Error Creating Token"@,
        AuthError::InvalidToken => "Invalid Token"@,
    }
}

impl AuthError {
    /// The status this error is answered with.
    pub fn status_code(&self) -> (s: u16)
        ensures
            s == auth_error_status(*self),
    {
        match self {
            AuthError::WrongCredentials => STATUS_UNAUTHORIZED,
            AuthError::MissingCredintials => STATUS_BAD_REQUEST,
            AuthError::InvalidTokenCreation => STATUS_INTERNAL_SERVER_ERROR,
            AuthError::InvalidToken => STATUS_BAD_REQUEST,
        }
    }

    /// The message this error is answered with.
    pub fn message(&self) -> (m: &'static str)
        ensures
            m@ == auth_error_message(*self),
    {
        match self {
            AuthError::WrongCredentials => "Wrong Credntials",
            AuthError::MissingCredintials => "Missing Credentials",
            AuthError::InvalidTokenCreation => "Error Creating Token",
            AuthError::InvalidToken => "Invalid Token",
        }
    }

    /// The reply to this error: its status and the JSON body
    /// `{"error":"<message>"}`.
    pub fn into_reply(self) -> (r: Reply)
        ensures
            r.status == auth_error_status(self),
            r.content_type == ContentType::ApplicationJson,
            r.body@ == encode_utf8(json_object_text("error"@, auth_error_message(self))),
    {
        let text = json_object_of_string("error", self.message());
        Reply {
            status: self.status_code(),
            content_type: ContentType::ApplicationJson,
            body: text.as_str().as_bytes_vec(),
        }
    }
}

} // verus!
