//! User routes: signing up and logging in.

use vstd::prelude::*;
use crate::middleware::auth::{create_auth_token, is_signed_token, AuthError};
use crate::models::user::{
    bcrypt_verify_result, is_new_user, password_matches, PublicUser, User,
};
use crate::reply::{is_string_reply, string_reply, Reply, STATUS_BAD_REQUEST};

verus! {

/// A sign-up request.
#[derive(Debug)]
pub struct CreateUserBody {
    pub username: String,
    pub email: String,
    pub password: String,
}

/// A login request.
#[derive(Debug)]
pub struct LoginUserBody {
    pub email: String,
    pub password: String,
}

/// The answer to a successful login: a token and the user's public record.
#[derive(Debug)]
pub struct AuthResponse {
    pub access_token: String,
    pub user: PublicUser,
}

impl AuthResponse {
    /// The answer carrying `token` for `user`.
    pub fn new(token: &str, user: User) -> (r: AuthResponse)
        requires
            user.id is Some,
        ensures
            r.access_token@ == token@,
            Some(r.user.id) == user.id,
            r.user.username == user.username,
            r.user.email == user.email,
    {
        AuthResponse { access_token: String::from_str(token), user: PublicUser::from(user) }
    }
}

/// The reply to a sign-up, given whether a user with that email is stored
/// already (the new user is stored only where none is). Both replies carry
/// status 400.
pub fn create_user_reply(email_taken: bool) -> (r: Reply)
    ensures
        email_taken ==> is_string_reply(r, STATUS_BAD_REQUEST, "username already exists"@),
        !email_taken ==> is_string_reply(r, STATUS_BAD_REQUEST, "user successfully loaded"@),
{
    if email_taken {
        string_reply(STATUS_BAD_REQUEST, "username already exists")
    } else {
        string_reply(STATUS_BAD_REQUEST, "user successfully loaded")
    }
}

/// The record a sign-up stores: the new user where no stored user has its
/// email, nothing otherwise.
pub open spec fn create_user_inserts(user: User, email_taken: bool) -> Option<User> {
    if email_taken {
        None
    } else {
        Some(user)
    }
}

/// What a sign-up comes to, given the new record and whether a user with its
/// email is stored already: the record to store, then the reply.
pub fn create_user_outcome(user: User, email_taken: bool) -> (r: (Option<User>, Reply))
    ensures
        r.0 == create_user_inserts(user, email_taken),
        email_taken ==> is_string_reply(r.1, STATUS_BAD_REQUEST, "username already exists"@),
        !email_taken ==> is_string_reply(r.1, STATUS_BAD_REQUEST, "user successfully loaded"@),
{
    let reply = create_user_reply(email_taken);
    if email_taken {
        (None, reply)
    } else {
        (Some(user), reply)
    }
}

/// A sign-up stores the new record itself, with its id, name, email and
/// password hash untouched, where its email is free, and stores nothing where
/// the email is taken.
pub proof fn lemma_create_user_stores_the_new_user(user: User, email_taken: bool)
    ensures
        !email_taken ==> create_user_inserts(user, email_taken) is Some,
        create_user_inserts(user, email_taken) matches Some(u) ==> {
            &&& u.id == user.id
            &&& u.username == user.username
            &&& u.email == user.email
            &&& u.password == user.password
        },
        email_taken ==> create_user_inserts(user, email_taken) is None,
{
}

/// Stored emails stay distinct: where the stored emails are distinct and the
/// lookup is answered from the store, a sign-up stores only a record whose
/// email the store does not hold, so the emails remain distinct.
pub proof fn lemma_create_user_keeps_emails_unique(stored: Seq<Seq<char>>, user: User)
    requires
        stored.no_duplicates(),
    ensures
        create_user_inserts(user, stored.contains(user.email@)) matches Some(u) ==> {
            &&& !stored.contains(u.email@)
            &&& stored.push(u.email@).no_duplicates()
        },
{
    if !stored.contains(user.email@) {
        let s = stored.push(user.email@);
        assert forall|i: int, j: int| 0 <= i < s.len() && 0 <= j < s.len() && i != j implies s[i]
            != s[j] by {
            if i < stored.len() && j < stored.len() {
                assert(s[i] == stored[i] && s[j] == stored[j]);
            } else if i == stored.len() {
                assert(s[j] == stored[j]);
            } else {
                assert(s[i] == stored[i]);
            }
        }
    }
}

/// A login request that lacks the email or the password.
pub open spec fn lacks_credentials(body: LoginUserBody) -> bool {
    body.email@.len() == 0 || body.password@.len() == 0
}

/// Refuses a login request that lacks the email or the password, before any
/// user is looked up.
pub fn check_login_body(body: &LoginUserBody) -> (r: Result<(), AuthError>)
    ensures
        lacks_credentials(*body) ==> r == Err::<(), AuthError>(AuthError::MissingCredintials),
        !lacks_credentials(*body) ==> r is Ok,
{
    if body.email.as_str().is_empty() || body.password.as_str().is_empty() {
        Err(AuthError::MissingCredintials)
    } else {
        Ok(())
    }
}

/// The outcome of a login with `password`, given the stored user with the
/// asked email: that user where bcrypt accepts the password against the stored
/// hash, `WrongCredentials` otherwise.
pub open spec fn login_outcome(password: Seq<char>, found: Option<User>) -> Result<User, AuthError> {
    match found {
        Some(u) => if bcrypt_verify_result(password, u.password@) == Some(true) {
            Ok(u)
        } else {
            Err(AuthError::WrongCredentials)
        },
        None => Err(AuthError::WrongCredentials),
    }
}

/// Checks the password of a login against the stored user with the asked
/// email. The stored hash must be readable (the request is not answered
/// otherwise).
pub fn verify_login(body: &LoginUserBody, found: Option<User>) -> (r: Result<User, AuthError>)
    requires
        found matches Some(u) ==> bcrypt_verify_result(body.password@, u.password@) is Some,
    ensures
        r == login_outcome(body.password@, found),
{
    match found {
        Some(u) => {
            let ok = password_matches(body.password.as_str(), u.password.as_str()).unwrap();
            if ok {
                Ok(u)
            } else {
                Err(AuthError::WrongCredentials)
            }
        },
        None => Err(AuthError::WrongCredentials),
    }
}

/// Checks the password of a login against the stored user with the asked
/// email; `None` where the stored hash cannot be read, a request the service
/// leaves unanswered.
pub fn verify_login_checked(body: &LoginUserBody, found: Option<User>) -> (r: Option<
    Result<User, AuthError>,
>)
    ensures
        match found {
            Some(u) => match bcrypt_verify_result(body.password@, u.password@) {
                Some(_) => r == Some(login_outcome(body.password@, Some(u))),
                None => r is None,
            },
            None => r == Some(Err::<User, AuthError>(AuthError::WrongCredentials)),
        },
{
    match found {
        Some(u) => {
            match password_matches(body.password.as_str(), u.password.as_str()) {
                Some(_) => Some(verify_login(body, Some(u))),
                None => None,
            }
        },
        None => Some(Err(AuthError::WrongCredentials)),
    }
}

/// The answer for a user whose login succeeded: a new token and the user's
/// public record.
pub fn issue_auth_response(user: User) -> (resp: AuthResponse)
    requires
        user.id is Some,
    ensures
        is_signed_token(resp.access_token@),
        Some(resp.user.id) == user.id,
        resp.user.username == user.username,
        resp.user.email == user.email,
{
    let token = create_auth_token();
    AuthResponse::new(token.as_str(), user)
}

/// Whoever signed up with a password logs in with it: the record that sign-up
/// makes, once stored (with whatever id), passes the password check.
pub proof fn lemma_signed_up_user_logs_in(
    created: User,
    stored: User,
    username: Seq<char>,
    email: Seq<char>,
    password: Seq<char>,
)
    requires
        is_new_user(created, username, email, password),
        stored.password == created.password,
    ensures
        login_outcome(password, Some(stored)) == Ok::<User, AuthError>(stored),
{
}

} // verus!
