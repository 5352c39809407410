//! User records, password hashing, and the user a token stands for.

use vstd::prelude::*;
use crate::middleware::auth::{passes_signature_check, validate_auth_token, AuthError, Claims};
use crate::object_id::ObjectId;

verus! {

/// The bcrypt work factor passwords are hashed with.
pub const PASSWORD_HASH_COST: u32 = 10;

/// A decimal digit.
pub open spec fn decimal_digit(n: int) -> char {
    (48 + n) as char
}

/// How a bcrypt hash of the given cost begins: `$2b$`, the cost in two
/// digits, and `$`.
pub open spec fn bcrypt_hash_prefix(cost: u32) -> Seq<char> {
    seq!['$', '2', 'b', '$', decimal_digit((cost / 10) as int), decimal_digit((cost % 10) as int), '$']
}

/// What `bcrypt::verify` returns for a password and a stored hash; `None`
/// where it reports an error (a hash it cannot read).
pub uninterp spec fn bcrypt_verify_result(password: Seq<char>, hash: Seq<char>) -> Option<bool>;

/// Calls `bcrypt::hash` with a fresh random salt. Its source formats the
/// result as `$2b$`, the two-digit cost, `$`, 22 characters of salt and 31 of
/// hash (60 in all), and `bcrypt::verify` recomputes the same hash from that
/// text and the same password, so it answers `Ok(true)`. At these costs it can
/// fail only where the system's random source fails, which the body treats as
/// the original does, by panicking; so a hash is returned for every password.
#[verifier::external_body]
fn bcrypt_hash(password: &str, cost: u32) -> (r: Option<String>)
    requires
        4 <= cost <= 31,
    ensures
        r is Some,
        r matches Some(h) ==> {
            &&& bcrypt_verify_result(password@, h@) == Some(true)
            &&& h@.len() == 60
            &&& h@.subrange(0, 7) == bcrypt_hash_prefix(cost)
        },
{
    Some(bcrypt::hash(password, cost).expect("the system's random source failed"))
}

/// Calls `bcrypt::verify`, a function of the password and the hash text alone,
/// named `bcrypt_verify_result`.
#[verifier::external_body]
fn bcrypt_verify(password: &str, hash: &str) -> (r: Option<bool>)
    ensures
        r == bcrypt_verify_result(password@, hash@),
{
    match bcrypt::verify(password, hash) {
        Ok(ok) => Some(ok),
        Err(_) => None,
    }
}

/// `hash` is a stored hash of `password`: bcrypt accepts the password against
/// it, and it has the form of a hash at `PASSWORD_HASH_COST`.
pub open spec fn is_password_hash_of(hash: Seq<char>, password: Seq<char>) -> bool {
    &&& bcrypt_verify_result(password, hash) == Some(true)
    &&& hash.len() == 60
    &&& hash.subrange(0, 7) == bcrypt_hash_prefix(PASSWORD_HASH_COST)
}

/// Hashes a password for storage: every password gets a hash.
pub fn user_password_hash(unhashed: &String) -> (r: Option<String>)
    ensures
        r matches Some(h) && is_password_hash_of(h@, unhashed@),
{
    bcrypt_hash(unhashed.as_str(), PASSWORD_HASH_COST)
}

/// Whether bcrypt accepts `password` against the stored `hash`; `None` where
/// the hash cannot be read.
pub fn password_matches(password: &str, hash: &str) -> (r: Option<bool>)
    ensures
        r == bcrypt_verify_result(password@, hash@),
{
    bcrypt_verify(password, hash)
}

/// A user as stored, with the hash of the password.
#[derive(Debug)]
pub struct User {
    pub id: Option<ObjectId>,
    pub username: String,
    pub email: String,
    pub password: String,
}

/// What may be shown of a user.
#[derive(Debug)]
pub struct PublicUser {
    pub id: ObjectId,
    pub username: String,
    pub email: String,
}

/// What a user has earned from views of their files and owes for views of others'.
#[derive(Clone, Copy, Debug, PartialEq, Eq, Structural)]
pub struct Account {
    pub earnings: i64,
    pub bill: i64,
}

/// `u` is the record that signing up with these details makes: no id yet, the
/// name and email as given, and a stored hash of the password.
pub open spec fn is_new_user(u: User, username: Seq<char>, email: Seq<char>, password: Seq<char>) -> bool {
    &&& u.id is None
    &&& u.username@ == username
    &&& u.email@ == email
    &&& is_password_hash_of(u.password@, password)
}

impl User {
    /// A new user record with the password hashed; every sign-up gets one.
    pub fn new(username: String, email: String, password: String) -> (r: Option<User>)
        ensures
            r matches Some(u) && is_new_user(u, username@, email@, password@),
    {
        match user_password_hash(&password) {
            Some(hashed_password) => Some(User { id: None, username, email, password: hashed_password }),
            None => None,
        }
    }
}

/// The name given to the user that a valid token stands for.
pub open spec fn token_user_name() -> Seq<char> {
    "hi"@
}

/// The email given to the user that a valid token stands for.
pub open spec fn token_user_email() -> Seq<char> {
    "e@.com"@
}

impl PublicUser {
    /// The public part of a stored user.
    pub fn from(user: User) -> (p: PublicUser)
        requires
            user.id is Some,
        ensures
            Some(p.id) == user.id,
            p.username == user.username,
            p.email == user.email,
    {
        PublicUser { id: user.id.unwrap(), username: user.username, email: user.email }
    }

    /// The user a checked token stands for: a fresh id with fixed name and
    /// email where the token was accepted, `InvalidToken` where it was not.
    pub fn from_validated_token(validated: Result<Claims, AuthError>) -> (r: Result<PublicUser, AuthError>)
        ensures
            validated is Ok <==> r is Ok,
            r matches Ok(u) ==> u.username@ == token_user_name() && u.email@ == token_user_email(),
            r matches Err(e) ==> e == AuthError::InvalidToken,
    {
        match validated {
            Ok(_) => Ok(PublicUser {
                id: ObjectId::new(),
                email: String::from_str("e@.com"),
                username: String::from_str("hi"),
            }),
            Err(_) => Err(AuthError::InvalidToken),
        }
    }

    /// The user a bearer token stands for, where the token passes the check
    /// against `CHECKING_SECRET` and the clock; `InvalidToken` otherwise.
    pub fn from_bearer_token(token: &str) -> (r: Result<PublicUser, AuthError>)
        ensures
            r matches Ok(u) ==> {
                &&& passes_signature_check(token@)
                &&& u.username@ == token_user_name()
                &&& u.email@ == token_user_email()
            },
            r matches Err(e) ==> e == AuthError::InvalidToken,
    {
        PublicUser::from_validated_token(validate_auth_token(String::from_str(token)))
    }
}

} // verus!
