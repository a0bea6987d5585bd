//! User accounts: how they are listed and presented, and the checks on login
//! and on account changes.
use vstd::prelude::*;
use crate::contexts::UserRole;
use crate::error::{invalid_field, is_forbidden, is_invalid_field, GatewayError};
use crate::ids::Uuid;
use crate::pagination::page_is_full;
use crate::time::Timestamp;

verus! {

/// A user account as the user store returns it.
#[derive(Debug, Clone)]
pub struct UserRecord {
    pub id: Uuid,
    pub email: String,
    pub password_hash: String,
    pub role: UserRole,
    pub blocked: bool,
    pub created_at: Timestamp,
    pub updated_at: Timestamp,
}

/// A user account as the API presents it (without the password hash).
#[derive(Debug, Clone)]
pub struct UserResponse {
    pub id: Uuid,
    pub email: String,
    pub role: UserRole,
    pub blocked: bool,
    pub created_at: Timestamp,
    pub updated_at: Timestamp,
}

impl UserResponse {
    /// The presented form of an account.
    pub fn from_record(value: UserRecord) -> (r: Self)
        ensures
            r.id == value.id,
            r.email == value.email,
            r.role == value.role,
            r.blocked == value.blocked,
            r.created_at == value.created_at,
            r.updated_at == value.updated_at,
    {
        UserResponse {
            id: value.id,
            email: value.email,
            role: value.role,
            blocked: value.blocked,
            created_at: value.created_at,
            updated_at: value.updated_at,
        }
    }
}

/// A request to create an account.
#[derive(Debug, Clone)]
pub struct CreateUserRequest {
    pub email: String,
    pub password: String,
    pub role: Option<UserRole>,
}

/// A request to change an account; absent fields stay as they are.
#[derive(Debug, Clone)]
pub struct UpdateUserRequest {
    pub email: Option<String>,
    pub password: Option<String>,
    pub role: Option<UserRole>,
    pub blocked: Option<bool>,
}

/// A login attempt.
#[derive(Debug, Clone)]
pub struct LoginRequest {
    pub email: String,
    pub password: String,
}

/// Query of the account list.
#[derive(Debug, Clone)]
pub struct UsersQuery {
    pub limit: Option<i64>,
    pub cursor_created_at: Option<Timestamp>,
    pub cursor_id: Option<Uuid>,
}

/// The role a new account gets: the requested one, or `User`.
pub fn create_user_role(payload: &CreateUserRequest) -> (r: UserRole)
    ensures
        r == (match payload.role {
            Some(role) => role,
            None => UserRole::User,
        }),
{
    match payload.role {
        Some(role) => role,
        None => UserRole::User,
    }
}

/// An account change must change something.
pub fn validate_user_update(payload: &UpdateUserRequest) -> (r: Result<(), GatewayError>)
    ensures
        (payload.email is None && payload.password is None && payload.role is None
            && payload.blocked is None) ==> (r matches Err(e) && is_invalid_field(
            e,
            "body"@,
            "provide at least one field"@,
        )),
        !(payload.email is None && payload.password is None && payload.role is None
            && payload.blocked is None) ==> r == Ok::<(), GatewayError>(()),
{
    if payload.email.is_none() && payload.password.is_none() && payload.role.is_none()
        && payload.blocked.is_none() {
        return Err(invalid_field("body", "provide at least one field"));
    }
    Ok(())
}

/// The account that a login attempt names may sign in (before its password
/// is checked): it must exist and not be blocked.
pub fn check_login_account(user: Option<UserRecord>) -> (r: Result<UserRecord, GatewayError>)
    ensures
        match user {
            None => r matches Err(GatewayError::Unauthorized(m)) && m@ == "invalid credentials"@,
            Some(u) => if u.blocked {
                r matches Err(e) && is_forbidden(e, "user is blocked"@)
            } else {
                r == Ok::<UserRecord, GatewayError>(u)
            },
        },
{
    let user = match user {
        Some(u) => u,
        None => return Err(GatewayError::Unauthorized("invalid credentials".to_owned())),
    };
    if user.blocked {
        return Err(GatewayError::Forbidden("user is blocked".to_owned()));
    }
    Ok(user)
}

/// The verdict on the password check of a login attempt.
pub fn check_login_password(valid: bool) -> (r: Result<(), GatewayError>)
    ensures
        valid ==> r == Ok::<(), GatewayError>(()),
        !valid ==> (r matches Err(GatewayError::Unauthorized(m)) && m@ == "invalid credentials"@),
{
    if !valid {
        return Err(GatewayError::Unauthorized("invalid credentials".to_owned()));
    }
    Ok(())
}

/// Position after which the next page of accounts starts.
#[derive(Debug, Clone, Copy, PartialEq, Eq, Structural)]
pub struct UserListCursor {
    pub created_at: Timestamp,
    pub user_id: Uuid,
}

/// The cursor an accounts page request asks for: `Some(None)` for none,
/// `None` when only one part is given.
pub open spec fn user_cursor_choice(created_at: Option<Timestamp>, user_id: Option<Uuid>) -> Option<
    Option<UserListCursor>,
> {
    match (created_at, user_id) {
        (Some(ts), Some(id)) => Some(Some(UserListCursor { created_at: ts, user_id: id })),
        (None, None) => Some(None),
        _ => None,
    }
}

/// The cursor of an accounts page request: both parts or neither.
pub fn build_cursor(created_at: Option<Timestamp>, user_id: Option<Uuid>) -> (r: Result<
    Option<UserListCursor>,
    GatewayError,
>)
    ensures
        match user_cursor_choice(created_at, user_id) {
            Some(c) => r == Ok::<Option<UserListCursor>, GatewayError>(c),
            None => r matches Err(e) && is_invalid_field(
                e,
                "cursor"@,
                "provide both cursor_created_at and cursor_id"@,
            ),
        },
{
    match (created_at, user_id) {
        (Some(ts), Some(id)) => Ok(Some(UserListCursor { created_at: ts, user_id: id })),
        (None, None) => Ok(None),
        _ => Err(invalid_field("cursor", "provide both cursor_created_at and cursor_id")),
    }
}

/// Position after which the next page of accounts starts, as a page gives
/// it.
#[derive(Debug, Clone, Copy, PartialEq, Eq, Structural)]
pub struct UserCursor {
    pub created_at: Timestamp,
    pub user_id: Uuid,
}

/// The cursor for the page after `records`, fetched with page size `limit`.
pub open spec fn next_user_cursor_of(records: Seq<UserRecord>, limit: i64) -> Option<UserCursor> {
    if records.len() == limit && records.len() > 0 {
        Some(UserCursor { created_at: records.last().created_at, user_id: records.last().id })
    } else {
        None
    }
}

/// The cursor for the page after a page of accounts, fetched with page size
/// `limit`: the position of the last account when the page is full.
pub fn next_user_cursor(records: &[UserRecord], limit: i64) -> (r: Option<UserCursor>)
    ensures
        r == next_user_cursor_of(records@, limit),
{
    if page_is_full(records.len(), limit) && records.len() > 0 {
        let last = &records[records.len() - 1];
        Some(UserCursor { created_at: last.created_at, user_id: last.id })
    } else {
        None
    }
}

/// `e` is the presented form of the account `u`.
pub open spec fn presents_user(e: UserResponse, u: UserRecord) -> bool {
    &&& e.id == u.id
    &&& e.email == u.email
    &&& e.role == u.role
    &&& e.blocked == u.blocked
    &&& e.created_at == u.created_at
    &&& e.updated_at == u.updated_at
}

/// A page of accounts.
#[derive(Debug)]
pub struct UsersResponse {
    pub users: Vec<UserResponse>,
    pub next_cursor: Option<UserCursor>,
}

impl UsersResponse {
    /// The page made of `records`, fetched with page size `limit`: a full page
    /// has a cursor at its last account.
    pub fn from_records(records: Vec<UserRecord>, limit: i64) -> (r: Self)
        ensures
            r.users@.len() == records@.len(),
            forall|i: int| 0 <= i < records@.len() ==> presents_user(#[trigger] r.users@[i], records@[i]),
            r.next_cursor == next_user_cursor_of(records@, limit),
    {
        let next_cursor = next_user_cursor(records.as_slice(), limit);
        let ghost orig = records@;
        let total = records.len();
        let mut rest = records;
        let mut users: Vec<UserResponse> = Vec::new();
        while rest.len() > 0
            invariant
                total == orig.len(),
                rest@.len() <= total,
                rest@ == orig.subrange(total - rest@.len(), total as int),
                users@.len() == total - rest@.len(),
                forall|j: int| 0 <= j < users@.len() ==> presents_user(#[trigger] users@[j], orig[j]),
            decreases rest@.len(),
        {
            let ghost before = rest@;
            let record = rest.remove(0);
            assert(record == orig[total - before.len()]);
            assert(rest@ =~= orig.subrange(total - rest@.len(), total as int));
            users.push(UserResponse::from_record(record));
        }
        UsersResponse { users, next_cursor }
    }
}

/// The answer to a successful login.
#[derive(Debug, Clone)]
pub struct LoginResponse {
    pub token: String,
    pub token_type: String,
    pub expires_at: Timestamp,
    pub user: UserResponse,
}

impl LoginResponse {
    /// The answer carrying a bearer `token` valid until `expires_at` for
    /// `user`.
    pub fn new(token: String, expires_at: Timestamp, user: UserRecord) -> (r: Self)
        ensures
            r.token == token,
            r.token_type@ == "bearer"@,
            r.expires_at == expires_at,
            r.user.id == user.id && r.user.email == user.email && r.user.role == user.role
                && r.user.blocked == user.blocked,
    {
        LoginResponse {
            token,
            token_type: String::from_str("bearer"),
            expires_at,
            user: UserResponse::from_record(user),
        }
    }
}

/// Why the user store refused a write.
#[derive(Debug, Clone)]
pub enum UserStoreFailure {
    /// No account has the given id.
    NotFound,
    /// Another account already has the e-mail address.
    EmailTaken,
    /// Any other failure, by its message.
    Other(String),
}

/// The error for a refused account write: a taken address is a conflict, a
/// missing account (on update) is not found, anything else a store failure.
pub fn user_write_error(user_id: Uuid, failure: UserStoreFailure) -> (r: GatewayError)
    ensures
        failure is EmailTaken ==> (r matches GatewayError::Conflict(m) && m@
            == "email already exists"@),
        failure is NotFound ==> (r matches GatewayError::UserNotFound(id) && id == user_id),
        failure matches UserStoreFailure::Other(m) ==> (r matches GatewayError::Storage(m2) && m2
            == m),
{
    match failure {
        UserStoreFailure::EmailTaken => GatewayError::Conflict(String::from_str("email already exists")),
        UserStoreFailure::NotFound => GatewayError::UserNotFound(user_id),
        UserStoreFailure::Other(m) => GatewayError::Storage(m),
    }
}

} // verus!
