//! Authentication endpoints: registering an account, logging in and out,
//! and reading one's own profile. A session is an HS256 token in the
//! `mboa_session` cookie.

use vstd::prelude::*;

use super::users::{
    check_email_shape, hashing_failure, lemma_hashing_failure_text, lookup_found, normalize_email, normalized_email,
    shape_problem, validate_password,
};
use super::{
    domain_error_reply, error_reply, error_response, is_reply, ErrorReply, CONFLICT,
    INTERNAL_SERVER_ERROR, NOT_FOUND, UNAUTHORIZED, UNPROCESSABLE_ENTITY,
};
use crate::domain::crypto::{argon2_verdict, hash_password, password_accepted, password_within_limit, verify_password};
use crate::domain::jwt::{encode_token, session_token_for};
use crate::domain::payment::text_or_empty;
use crate::domain::user::{role_name, Role, User};
use crate::domain::DomainError;
use crate::text::{byte_len, concat3, contains_str, decimal, has_substring, push_decimal_i64, string_of, trim};

verus! {

/// Body of `POST /api/auth/register`.
#[derive(Debug, Clone)]
pub struct RegisterRequest {
    pub email: String,
    pub password: String,
    pub name: Option<String>,
}

/// Body of `POST /api/auth/login`.
#[derive(Debug, Clone)]
pub struct LoginRequest {
    pub email: String,
    pub password: String,
}

/// The user of a session, in a reply.
#[derive(Debug, Clone)]
pub struct AuthResponse {
    pub id: String,
    pub email: String,
    pub name: String,
    pub role: String,
}

/// A reply carrying only a message.
#[derive(Debug, Clone)]
pub struct MessageResponse {
    pub message: String,
}

/// Lifetime of the session cookie, in seconds (24 h).
pub const SESSION_MAX_AGE: i32 = 86400;

/// Whether `r` shows the user `u`.
pub open spec fn shows_account(r: AuthResponse, u: User) -> bool {
    r.id@ == u.id@ && r.email@ == u.email@ && r.name@ == u.name@ && r.role@ == role_name(u.role)
}

/// The reply form of a user.
pub fn auth_response(user: User) -> (r: AuthResponse)
    ensures
        shows_account(r, user),
{
    AuthResponse { id: user.id, email: user.email, name: user.name, role: string_of(user.role.as_str()) }
}

/// Checks the shape of an email address after trimming it.
pub fn validate_email(email: &str) -> (r: Result<(), ErrorReply>)
    ensures
        shape_problem(crate::text::trim_seq(email@)) matches Some(m) ==> r is Err && is_reply(r->Err_0, UNPROCESSABLE_ENTITY, m, "VALIDATION_ERROR"@),
        shape_problem(crate::text::trim_seq(email@)) is None ==> r is Ok,
{
    check_email_shape(trim(email))
}

/// The `Set-Cookie` value that stores `token` as the session for `max_age`
/// seconds.
pub open spec fn session_cookie_text(token: Seq<char>, max_age: int) -> Seq<char> {
    "mboa_session="@ + token + "; Path=/; HttpOnly; SameSite=Lax; Max-Age="@ + decimal(max_age)
}

/// The `Set-Cookie` value that stores `token` as the session.
pub fn session_cookie_header(token: &str, max_age: i32) -> (r: String)
    ensures
        r@ == session_cookie_text(token@, max_age as int),
{
    let mut c = concat3("mboa_session=", token, "; Path=/; HttpOnly; SameSite=Lax; Max-Age=");
    push_decimal_i64(&mut c, max_age as i64);
    c
}

/// Why a registration is refused before anything is looked up: the
/// normalized email, then the password.
pub open spec fn account_problem(body: RegisterRequest) -> Option<Seq<char>> {
    if shape_problem(crate::text::trim_seq(normalized_email(body.email@))) is Some {
        shape_problem(crate::text::trim_seq(normalized_email(body.email@)))
    } else if byte_len(body.password@) < 8 {
        Some("Password must be at least 8 characters"@)
    } else {
        None
    }
}

/// The account that `POST /api/auth/register` stores, before it is stored.
/// `lookup` is what `find_by_email` gave for the normalized email (a found
/// user is a conflict; a failed lookup does not stop the registration) and
/// `no_users` whether the user list was empty: the first account is an
/// administrator, the others are cashiers.
pub fn prepare_account(
    body: RegisterRequest,
    lookup: &Result<Option<User>, DomainError>,
    no_users: &Result<bool, DomainError>,
    id: String,
    now: String,
) -> (r: Result<User, ErrorReply>)
    ensures
        account_problem(body) matches Some(m) ==> r is Err && is_reply(r->Err_0, UNPROCESSABLE_ENTITY, m, "VALIDATION_ERROR"@),
        account_problem(body) is None && lookup_found(*lookup) ==> r is Err && is_reply(r->Err_0, CONFLICT, "Email already registered"@, "DUPLICATE_EMAIL"@),
        account_problem(body) is None && !lookup_found(*lookup) && no_users is Err ==> r is Err && is_reply(r->Err_0, INTERNAL_SERVER_ERROR, no_users->Err_0.message_spec(), "INTERNAL_ERROR"@),
        account_problem(body) is None && !lookup_found(*lookup) && no_users is Ok && password_within_limit(body.password@) ==> r is Ok,
        account_problem(body) is None && !lookup_found(*lookup) && no_users is Ok && r is Err ==> r->Err_0.0 == INTERNAL_SERVER_ERROR && r->Err_0.1.code@ == "INTERNAL_ERROR"@
            && hashing_failure(body.password@, r->Err_0.1.error@),
        r matches Ok(u) ==> {
            &&& account_problem(body) is None && !lookup_found(*lookup) && no_users is Ok
            &&& u.id@ == id@
            &&& u.email@ == normalized_email(body.email@)
            &&& password_accepted(body.password@, u.password_hash@)
            &&& u.name@ == text_or_empty(body.name)
            &&& u.role == if no_users->Ok_0 { Role::Admin } else { Role::Caissier }
            &&& u.created_at@ == now@ && u.updated_at@ == now@
        },
{
    let email = normalize_email(body.email.as_str());
    validate_email(email.as_str())?;
    validate_password(body.password.as_str())?;
    if let Ok(Some(_)) = lookup {
        return Err(error_response("Email already registered", "DUPLICATE_EMAIL", CONFLICT));
    }
    let is_first = match no_users {
        Ok(b) => *b,
        Err(e) => return Err(domain_error_reply(e, "INTERNAL_ERROR", INTERNAL_SERVER_ERROR)),
    };
    let password_hash = match hash_password(body.password.as_str()) {
        Ok(h) => h,
        Err(e) => {
            proof {
                lemma_hashing_failure_text(e, body.password@);
            }
            return Err(domain_error_reply(&e, "INTERNAL_ERROR", INTERNAL_SERVER_ERROR));
        },
    };
    let name = match body.name {
        Some(n) => n,
        None => String::new(),
    };
    let role = if is_first {
        Role::Admin
    } else {
        Role::Caissier
    };
    let created_at = now.clone();
    Ok(User { id, email, password_hash, name, role, created_at, updated_at: now })
}

/// The reply when storing a new account failed with `e`: a uniqueness
/// violation is an already registered email.
pub fn account_creation_error_reply(e: &DomainError) -> (r: ErrorReply)
    ensures
        has_substring(e.message_spec(), "UNIQUE"@) || has_substring(e.message_spec(), "duplicate"@) ==> is_reply(r, CONFLICT, "Email already registered"@, "DUPLICATE_EMAIL"@),
        !(has_substring(e.message_spec(), "UNIQUE"@) || has_substring(e.message_spec(), "duplicate"@)) ==> is_reply(r, CONFLICT, "Registration failed"@, "REGISTRATION_ERROR"@),
{
    let text = e.message();
    if contains_str(text.as_str(), "UNIQUE") || contains_str(text.as_str(), "duplicate") {
        error_response("Email already registered", "DUPLICATE_EMAIL", CONFLICT)
    } else {
        error_response("Registration failed", "REGISTRATION_ERROR", CONFLICT)
    }
}

/// A session opened for a user: its token, the cookie that carries it and
/// the reply body.
#[derive(Debug, Clone)]
pub struct Session {
    pub token: String,
    pub cookie: String,
    pub body: AuthResponse,
}

/// Signs a session token for `user` with `secret`, valid 24 h from now, and
/// the cookie and reply that carry it. Signing does not fail, so this always
/// gives a session.
pub fn issue_session(user: User, secret: &[u8]) -> (r: Result<Session, ErrorReply>)
    ensures
        r is Ok,
        r matches Ok(s) ==> {
            &&& exists|now: u64| #[trigger] session_token_for(s.token@, secret@, user, now)
            &&& s.cookie@ == session_cookie_text(s.token@, SESSION_MAX_AGE as int)
            &&& shows_account(s.body, user)
        },
{
    let token = match encode_token(&user, secret) {
        Ok(t) => t,
        Err(m) => return Err(error_reply(m, "INTERNAL_ERROR", INTERNAL_SERVER_ERROR)),
    };
    assert(exists|now: u64| #[trigger] session_token_for(token@, secret@, user, now));
    let cookie = session_cookie_header(token.as_str(), SESSION_MAX_AGE);
    Ok(Session { token, cookie, body: auth_response(user) })
}

/// What a login with `password` gives for the result `lookup` of
/// `find_by_email`: the user when the password is accepted; 401
/// `INVALID_CREDENTIALS` for an unknown email or a wrong password; 500 when
/// the lookup fails or the stored hash cannot be read.
pub open spec fn login_outcome(lookup: Result<Option<User>, DomainError>, password: Seq<char>) -> Result<User, (u16, Seq<char>, Seq<char>)> {
    match lookup {
        Err(e) => Err((INTERNAL_SERVER_ERROR, e.message_spec(), "INTERNAL_ERROR"@)),
        Ok(None) => Err((UNAUTHORIZED, "Invalid email or password"@, "INVALID_CREDENTIALS"@)),
        Ok(Some(u)) => match argon2_verdict(password, u.password_hash@) {
            Ok(true) => Ok(u),
            Ok(false) => Err((UNAUTHORIZED, "Invalid email or password"@, "INVALID_CREDENTIALS"@)),
            Err(m) => Err((INTERNAL_SERVER_ERROR, "Internal error: Invalid password hash format: "@ + m, "INTERNAL_ERROR"@)),
        },
    }
}

/// Checks a login attempt (see `login_outcome`).
pub fn authenticate(lookup: Result<Option<User>, DomainError>, password: &str) -> (r: Result<User, ErrorReply>)
    ensures
        login_outcome(lookup, password@) matches Ok(u) ==> (r matches Ok(v) && v == u),
        login_outcome(lookup, password@) matches Err(p) ==> r is Err && is_reply(r->Err_0, p.0, p.1, p.2),
{
    let user = match lookup {
        Err(e) => return Err(domain_error_reply(&e, "INTERNAL_ERROR", INTERNAL_SERVER_ERROR)),
        Ok(None) => return Err(error_response("Invalid email or password", "INVALID_CREDENTIALS", UNAUTHORIZED)),
        Ok(Some(u)) => u,
    };
    match verify_password(password, user.password_hash.as_str()) {
        Ok(true) => Ok(user),
        Ok(false) => Err(error_response("Invalid email or password", "INVALID_CREDENTIALS", UNAUTHORIZED)),
        Err(e) => {
            let r = domain_error_reply(&e, "INTERNAL_ERROR", INTERNAL_SERVER_ERROR);
            proof {
                let m = choose|m: Seq<char>| argon2_verdict(password@, user.password_hash@) == Err::<bool, Seq<char>>(m) && e->Internal_0@ == "Invalid password hash format: "@ + m;
                assert(e.message_spec() =~= "Internal error: "@ + ("Invalid password hash format: "@ + m));
                reveal_strlit("Internal error: ");
                reveal_strlit("Invalid password hash format: ");
                reveal_strlit("Internal error: Invalid password hash format: ");
                assert(e.message_spec() =~= "Internal error: Invalid password hash format: "@ + m);
            }
            Err(r)
        },
    }
}

/// The reply of `POST /api/auth/logout`: the cookie that clears the session
/// and a message.
pub fn logout_reply() -> (r: (String, MessageResponse))
    ensures
        r.0@ == "mboa_session=; Path=/; HttpOnly; SameSite=Lax; Max-Age=0"@,
        r.1.message@ == "Logged out"@,
{
    (string_of("mboa_session=; Path=/; HttpOnly; SameSite=Lax; Max-Age=0"), MessageResponse { message: string_of("Logged out") })
}

/// The reply of `GET /api/auth/me` for the result of `find_by_id` on the
/// session's user.
pub fn profile(found: Result<Option<User>, DomainError>) -> (r: Result<AuthResponse, ErrorReply>)
    ensures
        found matches Ok(Some(u)) ==> (r matches Ok(a) && shows_account(a, u)),
        found is Ok && found->Ok_0 is None ==> r is Err && is_reply(r->Err_0, NOT_FOUND, "User not found"@, "USER_NOT_FOUND"@),
        found matches Err(e) ==> r is Err && is_reply(r->Err_0, INTERNAL_SERVER_ERROR, e.message_spec(), "INTERNAL_ERROR"@),
{
    match found {
        Err(e) => Err(domain_error_reply(&e, "INTERNAL_ERROR", INTERNAL_SERVER_ERROR)),
        Ok(None) => Err(error_response("User not found", "USER_NOT_FOUND", NOT_FOUND)),
        Ok(Some(u)) => Ok(auth_response(u)),
    }
}

/// A password that was hashed when the account was made logs the user in:
/// whatever `find_by_email` returns that user with a hash accepting the
/// password, the login succeeds with that user.
pub proof fn lemma_registered_password_logs_in(user: User, password: Seq<char>)
    requires
        password_accepted(password, user.password_hash@),
    ensures
        login_outcome(Ok(Some(user)), password) == Ok::<User, (u16, Seq<char>, Seq<char>)>(user),
{
}

} // verus!
