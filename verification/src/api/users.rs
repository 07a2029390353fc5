//! User management by administrators: creation with a chosen role, partial
//! updates, and deletion guarded against removing oneself or the last admin.

use vstd::prelude::*;

use super::{
    domain_error_reply, error_response, is_reply, ErrorReply, BAD_REQUEST, CONFLICT,
    INTERNAL_SERVER_ERROR, NOT_FOUND, UNPROCESSABLE_ENTITY,
};
use crate::domain::crypto::{argon2_phc, hash_password, password_accepted, password_within_limit};
use crate::domain::payment::text_or_empty;
use crate::domain::user::{role_keyword, role_name, Role, User};
use crate::domain::DomainError;
use crate::text::{
    byte_len, contains_char, contains_str, has_substring, lowercase_of, string_of, to_lowercase, trim,
    trim_seq,
};

verus! {

/// A user in a reply (no password hash).
#[derive(Debug, Clone)]
pub struct UserResponse {
    pub id: String,
    pub email: String,
    pub name: String,
    pub role: String,
    pub created_at: String,
}

/// Body of `POST /api/users`.
#[derive(Debug, Clone)]
pub struct CreateUserRequest {
    pub email: String,
    pub password: String,
    pub name: Option<String>,
    pub role: String,
}

/// Body of `PATCH /api/users/{id}`: only the given fields change.
#[derive(Debug, Clone)]
pub struct UpdateUserRequest {
    pub email: Option<String>,
    pub name: Option<String>,
    pub role: Option<String>,
    pub password: Option<String>,
}

/// The role of a created user when the request names none.
pub fn default_role() -> (r: String)
    ensures
        r@ == "caissier"@,
{
    string_of("caissier")
}

/// Whether `r` shows the user `u`.
pub open spec fn shows_user(r: UserResponse, u: User) -> bool {
    &&& r.id@ == u.id@
    &&& r.email@ == u.email@
    &&& r.name@ == u.name@
    &&& r.role@ == role_name(u.role)
    &&& r.created_at@ == u.created_at@
}

/// The reply form of a user.
pub fn to_response(user: &User) -> (r: UserResponse)
    ensures
        shows_user(r, *user),
{
    UserResponse {
        id: user.id.clone(),
        email: user.email.clone(),
        name: user.name.clone(),
        role: string_of(user.role.as_str()),
        created_at: user.created_at.clone(),
    }
}

/// An email address as stored: trimmed and lower-cased.
pub open spec fn normalized_email(email: Seq<char>) -> Seq<char> {
    lowercase_of(trim_seq(email))
}

/// The parts of `e` before and after its first `@`, if it has one.
pub open spec fn email_parts(e: Seq<char>) -> Option<(Seq<char>, Seq<char>)> {
    match e.index_of_first('@') {
        Some(k) => Some((e.take(k), e.skip(k + 1))),
        None => None,
    }
}

/// Whether `e` has a non-empty part before its first `@` and a non-empty
/// part after it that contains a `.`.
pub open spec fn email_shape_ok(e: Seq<char>) -> bool {
    match email_parts(e) {
        Some((local, domain)) => local.len() > 0 && domain.len() > 0 && domain.contains('.'),
        None => false,
    }
}

/// Why an email address is refused, if it is.
pub open spec fn email_problem(email: Seq<char>) -> Option<Seq<char>> {
    if normalized_email(email).len() == 0 {
        Some("Email is required"@)
    } else if !email_shape_ok(normalized_email(email)) {
        Some("Invalid email format"@)
    } else {
        None
    }
}

/// The message of a refused role.
pub open spec fn invalid_role_message() -> Seq<char> {
    "Invalid role. Must be: admin, caissier, vendeur, or gestionnaire_stock"@
}

/// The role a request names, ignoring case.
pub open spec fn requested_role(role: Seq<char>) -> Option<Role> {
    role_keyword(lowercase_of(role))
}

fn invalid_email() -> (r: ErrorReply)
    ensures
        is_reply(r, UNPROCESSABLE_ENTITY, "Invalid email format"@, "VALIDATION_ERROR"@),
{
    error_response("Invalid email format", "VALIDATION_ERROR", UNPROCESSABLE_ENTITY)
}

/// Why an already normalized email address is refused, if it is.
pub open spec fn shape_problem(e: Seq<char>) -> Option<Seq<char>> {
    if e.len() == 0 {
        Some("Email is required"@)
    } else if !email_shape_ok(e) {
        Some("Invalid email format"@)
    } else {
        None
    }
}

/// Checks the shape of an email address that is already trimmed.
pub(crate) fn check_email_shape(e: &str) -> (r: Result<(), ErrorReply>)
    ensures
        shape_problem(e@) matches Some(m) ==> r is Err && is_reply(r->Err_0, UNPROCESSABLE_ENTITY, m, "VALIDATION_ERROR"@),
        shape_problem(e@) is None ==> r is Ok,
{
    let ghost es = e@;
    let n = e.unicode_len();
    if n == 0 {
        return Err(error_response("Email is required", "VALIDATION_ERROR", UNPROCESSABLE_ENTITY));
    }
    proof {
        es.index_of_first_ensures('@');
    }
    match crate::text::find_char(e, '@') {
        None => Err(invalid_email()),
        Some(k) => {
            proof {
                assert(es[k as int] == '@');
                assert(es.contains('@'));
                let idx = es.index_of_first('@')->0;
                if idx < k {
                    assert(es[idx] == '@');
                }
                if k < idx {
                    assert(es[k as int] == '@');
                }
            }
            if k == 0 {
                return Err(invalid_email());
            }
            let domain = e.substring_char(k + 1, n);
            assert(domain@ =~= es.skip(k + 1));
            if domain.unicode_len() == 0 {
                return Err(invalid_email());
            }
            if !contains_char(domain, '.') {
                return Err(invalid_email());
            }
            Ok(())
        },
    }
}

/// An email address trimmed and lower-cased.
pub fn normalize_email(email: &str) -> (r: String)
    ensures
        r@ == normalized_email(email@),
{
    to_lowercase(trim(email))
}

/// Trims and lower-cases an email address and checks its shape.
pub fn validate_email(email: &str) -> (r: Result<String, ErrorReply>)
    ensures
        email_problem(email@) matches Some(m) ==> r is Err && is_reply(r->Err_0, UNPROCESSABLE_ENTITY, m, "VALIDATION_ERROR"@),
        email_problem(email@) is None ==> r is Ok && r->Ok_0@ == normalized_email(email@),
{
    let e = normalize_email(email);
    check_email_shape(e.as_str())?;
    Ok(e)
}

/// Refuses a password shorter than 8 bytes.
pub fn validate_password(password: &str) -> (r: Result<(), ErrorReply>)
    ensures
        r is Ok <==> byte_len(password@) >= 8,
        r matches Err(e) ==> is_reply(e, UNPROCESSABLE_ENTITY, "Password must be at least 8 characters"@, "VALIDATION_ERROR"@),
{
    if password.len() < 8 {
        return Err(error_response("Password must be at least 8 characters", "VALIDATION_ERROR", UNPROCESSABLE_ENTITY));
    }
    Ok(())
}

/// The role named by `role`, ignoring case.
pub fn validate_role(role: &str) -> (r: Result<Role, ErrorReply>)
    ensures
        r is Ok <==> requested_role(role@) is Some,
        r matches Ok(x) ==> requested_role(role@) == Some(x),
        r matches Err(e) ==> is_reply(e, UNPROCESSABLE_ENTITY, invalid_role_message(), "VALIDATION_ERROR"@),
{
    match Role::from_str(role) {
        Ok(x) => Ok(x),
        Err(_) => Err(error_response(
            "Invalid role. Must be: admin, caissier, vendeur, or gestionnaire_stock",
            "VALIDATION_ERROR",
            UNPROCESSABLE_ENTITY,
        )),
    }
}

/// Whether `text` is the message of a failed hashing of `password`:
/// `Internal error: Password hashing failed: ` and Argon2's message for some
/// 16-byte salt.
pub open spec fn hashing_failure(password: Seq<char>, text: Seq<char>) -> bool {
    exists|salt: Seq<u8>|
        salt.len() == 16 && #[trigger] argon2_phc(password, salt) is Err
            && text == "Internal error: Password hashing failed: "@ + argon2_phc(password, salt)->Err_0
}

/// The error of a failed password hashing carries the hashing failure text.
pub(crate) proof fn lemma_hashing_failure_text(e: DomainError, password: Seq<char>)
    requires
        e matches DomainError::Internal(m) && exists|salt: Seq<u8>, msg: Seq<char>|
            salt.len() == 16 && argon2_phc(password, salt) == Err::<Seq<char>, Seq<char>>(msg)
                && m@ == "Password hashing failed: "@ + msg,
    ensures
        hashing_failure(password, e.message_spec()),
{
    let m = e->Internal_0@;
    let (salt, msg) = choose|salt: Seq<u8>, msg: Seq<char>|
        salt.len() == 16 && argon2_phc(password, salt) == Err::<Seq<char>, Seq<char>>(msg)
            && m == "Password hashing failed: "@ + msg;
    reveal_strlit("Internal error: ");
    reveal_strlit("Password hashing failed: ");
    reveal_strlit("Internal error: Password hashing failed: ");
    let t = e.message_spec();
    assert(t =~= "Internal error: Password hashing failed: "@ + msg);
    assert(argon2_phc(password, salt) is Err);
}

/// Why a creation request is refused before anything is looked up, checking
/// the email, then the password, then the role.
pub open spec fn new_user_problem(body: CreateUserRequest) -> Option<Seq<char>> {
    if email_problem(body.email@) is Some {
        email_problem(body.email@)
    } else if byte_len(body.password@) < 8 {
        Some("Password must be at least 8 characters"@)
    } else if requested_role(body.role@) is None {
        Some(invalid_role_message())
    } else {
        None
    }
}

/// Whether a lookup of the email by `find_by_email` found a user.
pub open spec fn lookup_found(lookup: Result<Option<User>, DomainError>) -> bool {
    lookup matches Ok(Some(_))
}

/// The user that `POST /api/users` stores, before it is stored: the request
/// is validated (422), the email must be free according to `lookup`, the
/// result of `find_by_email` for it (409), and the password is hashed (500
/// if hashing fails). A failed lookup does not stop the creation.
pub fn prepare_new_user(
    body: CreateUserRequest,
    lookup: &Result<Option<User>, DomainError>,
    id: String,
    now: String,
) -> (r: Result<User, ErrorReply>)
    ensures
        new_user_problem(body) matches Some(m) ==> r is Err && is_reply(r->Err_0, UNPROCESSABLE_ENTITY, m, "VALIDATION_ERROR"@),
        new_user_problem(body) is None && lookup_found(*lookup) ==> r is Err && is_reply(r->Err_0, CONFLICT, "Email already registered"@, "DUPLICATE_EMAIL"@),
        new_user_problem(body) is None && !lookup_found(*lookup) && password_within_limit(body.password@) ==> r is Ok,
        new_user_problem(body) is None && !lookup_found(*lookup) && r is Err ==> r->Err_0.0 == INTERNAL_SERVER_ERROR && r->Err_0.1.code@ == "INTERNAL_ERROR"@
            && hashing_failure(body.password@, r->Err_0.1.error@),
        r matches Ok(u) ==> {
            &&& new_user_problem(body) is None && !lookup_found(*lookup)
            &&& u.id@ == id@
            &&& u.email@ == normalized_email(body.email@)
            &&& password_accepted(body.password@, u.password_hash@)
            &&& u.name@ == text_or_empty(body.name)
            &&& Some(u.role) == requested_role(body.role@)
            &&& u.created_at@ == now@ && u.updated_at@ == now@
        },
{
    let email = validate_email(body.email.as_str())?;
    validate_password(body.password.as_str())?;
    let role = validate_role(body.role.as_str())?;
    if let Ok(Some(_)) = lookup {
        return Err(error_response("Email already registered", "DUPLICATE_EMAIL", CONFLICT));
    }
    let password_hash = match hash_password(body.password.as_str()) {
        Ok(h) => h,
        Err(e) => {
            proof {
                lemma_hashing_failure_text(e, body.password@);
            }
            return Err(domain_error_reply(&e, "INTERNAL_ERROR", INTERNAL_SERVER_ERROR));
        },
    };
    let name = match body.name {
        Some(n) => n,
        None => String::new(),
    };
    let created_at = now.clone();
    Ok(User { id, email, password_hash, name, role, created_at, updated_at: now })
}

/// The message of a failed insert: a uniqueness violation is reported as an
/// already registered email.
pub open spec fn creation_failure_message(err: Seq<char>) -> Seq<char> {
    if has_substring(err, "UNIQUE"@) || has_substring(err, "duplicate"@) {
        "Email already registered"@
    } else {
        "Failed to create user"@
    }
}

/// The reply when storing a new user failed with `e`.
pub fn creation_error_reply(e: &DomainError) -> (r: ErrorReply)
    ensures
        is_reply(r, CONFLICT, creation_failure_message(e.message_spec()), "CREATION_ERROR"@),
{
    let text = e.message();
    if contains_str(text.as_str(), "UNIQUE") || contains_str(text.as_str(), "duplicate") {
        error_response("Email already registered", "CREATION_ERROR", CONFLICT)
    } else {
        error_response("Failed to create user", "CREATION_ERROR", CONFLICT)
    }
}

/// Why an update request is refused before any hashing, given `owner`, the
/// identifier of the user that already holds the new email (if any): the
/// email (422, then 409 when another user holds it), then the role, then the
/// password.
pub open spec fn update_problem(user: User, body: UpdateUserRequest, owner: Option<Seq<char>>) -> Option<(u16, Seq<char>, Seq<char>)> {
    if body.email is Some && email_problem(body.email->0@) is Some {
        Some((UNPROCESSABLE_ENTITY, email_problem(body.email->0@)->0, "VALIDATION_ERROR"@))
    } else if body.email is Some && owner is Some && owner->0 != user.id@ {
        Some((CONFLICT, "Email already in use"@, "DUPLICATE_EMAIL"@))
    } else if body.role is Some && requested_role(body.role->0@) is None {
        Some((UNPROCESSABLE_ENTITY, invalid_role_message(), "VALIDATION_ERROR"@))
    } else if body.password is Some && byte_len(body.password->0@) < 8 {
        Some((UNPROCESSABLE_ENTITY, "Password must be at least 8 characters"@, "VALIDATION_ERROR"@))
    } else {
        None
    }
}

/// Applies a partial update to `user`. `owner` is the identifier of the user
/// that `find_by_email` returned for the new email, if any. The password, when
/// given, is hashed anew (500 if hashing fails); `updated_at` becomes `now`.
pub fn apply_user_update(user: User, body: UpdateUserRequest, owner: Option<String>, now: String) -> (r: Result<User, ErrorReply>)
    ensures
        update_problem(user, body, crate::text::opt_view(owner)) matches Some(p) ==> r is Err && is_reply(r->Err_0, p.0, p.1, p.2),
        update_problem(user, body, crate::text::opt_view(owner)) is None && body.password is None ==> r is Ok,
        update_problem(user, body, crate::text::opt_view(owner)) is None && body.password is Some
            && password_within_limit(body.password->0@) ==> r is Ok,
        update_problem(user, body, crate::text::opt_view(owner)) is None && r is Err ==> r->Err_0.0 == INTERNAL_SERVER_ERROR && r->Err_0.1.code@ == "INTERNAL_ERROR"@
            && body.password is Some && hashing_failure(body.password->0@, r->Err_0.1.error@),
        r matches Ok(u) ==> {
            &&& update_problem(user, body, crate::text::opt_view(owner)) is None
            &&& u.id@ == user.id@
            &&& u.email@ == if body.email is Some { normalized_email(body.email->0@) } else { user.email@ }
            &&& u.name@ == if body.name is Some { body.name->0@ } else { user.name@ }
            &&& u.role == if body.role is Some { requested_role(body.role->0@)->0 } else { user.role }
            &&& if body.password is Some { password_accepted(body.password->0@, u.password_hash@) } else { u.password_hash@ == user.password_hash@ }
            &&& u.created_at@ == user.created_at@
            &&& u.updated_at@ == now@
        },
{
    let mut user = user;
    let ghost old_user = user;
    let ghost owner_view = crate::text::opt_view(owner);
    if let Some(e) = body.email {
        let email = validate_email(e.as_str())?;
        if let Some(o) = owner {
            if !crate::text::str_eq(o.as_str(), user.id.as_str()) {
                return Err(error_response("Email already in use", "DUPLICATE_EMAIL", CONFLICT));
            }
        }
        user.email = email;
    }
    if let Some(name) = body.name {
        user.name = name;
    }
    if let Some(role_text) = body.role {
        user.role = validate_role(role_text.as_str())?;
    }
    if let Some(password) = body.password {
        validate_password(password.as_str())?;
        user.password_hash = match hash_password(password.as_str()) {
            Ok(h) => h,
            Err(e) => {
                proof {
                    lemma_hashing_failure_text(e, password@);
                }
                return Err(domain_error_reply(&e, "INTERNAL_ERROR", INTERNAL_SERVER_ERROR));
            },
        };
    }
    user.updated_at = now;
    Ok(user)
}

/// Refuses the deletion of the requesting user's own account.
pub fn check_not_self(auth_id: &str, user_id: &str) -> (r: Result<(), ErrorReply>)
    ensures
        r is Err <==> auth_id@ == user_id@,
        r matches Err(e) ==> is_reply(e, BAD_REQUEST, "Cannot delete yourself"@, "SELF_DELETE"@),
{
    if crate::text::str_eq(auth_id, user_id) {
        return Err(error_response("Cannot delete yourself", "SELF_DELETE", BAD_REQUEST));
    }
    Ok(())
}

/// The user that was looked up, or 404 when there is none.
pub fn require_user(found: Option<User>) -> (r: Result<User, ErrorReply>)
    ensures
        found matches Some(u) ==> (r matches Ok(v) && v == u),
        found is None ==> r is Err && is_reply(r->Err_0, NOT_FOUND, "User not found"@, "NOT_FOUND"@),
{
    match found {
        Some(u) => Ok(u),
        None => Err(error_response("User not found", "NOT_FOUND", NOT_FOUND)),
    }
}

/// The roles of a list of users, in order.
pub open spec fn roles_of(users: Seq<User>) -> Seq<Role> {
    users.map_values(|u: User| u.role)
}

/// The number of admins among `roles`.
pub open spec fn admin_count_of(roles: Seq<Role>) -> nat
    decreases roles.len(),
{
    if roles.len() == 0 {
        0
    } else {
        admin_count_of(roles.drop_last()) + if roles.last() == Role::Admin { 1nat } else { 0nat }
    }
}

/// The number of admins among `users`.
pub fn admin_count(users: &Vec<User>) -> (r: usize)
    ensures
        r == admin_count_of(roles_of(users@)),
{
    let mut count: usize = 0;
    let mut i: usize = 0;
    while i < users.len()
        invariant
            i <= users.len(),
            count == admin_count_of(roles_of(users@).take(i as int)),
            count <= i,
        decreases users.len() - i,
    {
        assert(roles_of(users@).take(i + 1).drop_last() =~= roles_of(users@).take(i as int));
        if users[i].role == Role::Admin {
            count = count + 1;
        }
        i = i + 1;
    }
    assert(roles_of(users@).take(users@.len() as int) =~= roles_of(users@));
    count
}

/// Whether a user with `role` may be deleted while `admins` admins exist.
pub open spec fn deletion_allowed(role: Role, admins: nat) -> bool {
    role != Role::Admin || admins > 1
}

/// Refuses the deletion of the last admin.
pub fn check_last_admin(target: &User, admins: usize) -> (r: Result<(), ErrorReply>)
    ensures
        r is Ok <==> deletion_allowed(target.role, admins as nat),
        r matches Err(e) ==> is_reply(e, BAD_REQUEST, "Cannot delete the last admin"@, "LAST_ADMIN"@),
{
    if target.role == Role::Admin && admins <= 1 {
        return Err(error_response("Cannot delete the last admin", "LAST_ADMIN", BAD_REQUEST));
    }
    Ok(())
}

proof fn lemma_admin_count_remove(roles: Seq<Role>, i: int)
    requires
        0 <= i < roles.len(),
    ensures
        admin_count_of(roles.remove(i)) + (if roles[i] == Role::Admin { 1nat } else { 0nat }) == admin_count_of(roles),
    decreases roles.len(),
{
    if i == roles.len() - 1 {
        assert(roles.remove(i) =~= roles.drop_last());
    } else {
        lemma_admin_count_remove(roles.drop_last(), i);
        assert(roles.remove(i).drop_last() =~= roles.drop_last().remove(i));
        assert(roles.remove(i).last() == roles.last());
    }
}

/// Deleting a user that the guards let through never leaves the system
/// without an admin: if there was an admin before, one remains after.
pub proof fn lemma_an_admin_remains(users: Seq<User>, i: int)
    requires
        0 <= i < users.len(),
        admin_count_of(roles_of(users)) >= 1,
        deletion_allowed(users[i].role, admin_count_of(roles_of(users))),
    ensures
        admin_count_of(roles_of(users.remove(i))) >= 1,
{
    lemma_admin_count_remove(roles_of(users), i);
    assert(roles_of(users.remove(i)) =~= roles_of(users).remove(i));
}

} // verus!
