//! The operations as the desktop command interface runs them: the decisions
//! of each command, with every failure rendered as the command's error text.
//!
//! A command that acts for an account takes the token as an explicit
//! argument and validates it before anything else.

use crate::auth::{
    is_clock_instant, token_rejection, token_rejection_text, TokenError, unix_time,
    validate_jwt_at,
};
use crate::models::{
    LoginRequest, LoginResponse, NewUser, NewUserView, UpdateUser, UpdateUserView, User,
};
use crate::service::{
    account_fields_check, account_view, admitted_and_valid, AuthError, create_account,
    create_account_outcome, hashed_row_outcome, internal_failure_body, internal_failure_text,
    issue_body, issue_text, log_in_at, login_outcome, Operation, presented_claims, register_account,
    require_admin, stored, token_admission, update_account, validation_body, validation_text,
};
use vstd::prelude::*;

verus! {

/// The error text that tells a caller that the claim's role does not allow
/// the operation.
pub open spec fn denial_text(op: Operation) -> Seq<char> {
    match op {
        Operation::CreateUser => "Access denied: only admins can create users"@,
        Operation::FetchAllUsers => "Access denied: only admins can list users"@,
        Operation::UpdateUser => "Access denied: only admins can update users"@,
        Operation::DeleteUser => "Access denied: only admins can delete users"@,
        _ => "Access denied"@,
    }
}

/// The error text under which a failure of a command is reported.
pub open spec fn command_error(op: Operation, error: AuthError) -> Seq<char> {
    match error {
        AuthError::MissingToken => token_rejection(),
        AuthError::Token(_) => token_rejection(),
        AuthError::Credential => "Invalid credentials."@,
        AuthError::Authorization => denial_text(op),
        AuthError::Validation(e) => validation_body(e),
        AuthError::Store => internal_failure_body(op),
        AuthError::Hashing(e) => e.detail@,
        AuthError::Issue(e) => issue_body(e),
    }
}

/// Whether `res` renders `inner` for the command interface: a value is
/// handed on as it is, a failure becomes its error text.
pub open spec fn relayed<T>(
    op: Operation,
    inner: Result<T, AuthError>,
    res: Result<T, String>,
) -> bool {
    match inner {
        Ok(value) => res matches Ok(v) && v == value,
        Err(error) => res matches Err(text) && text@ == command_error(op, error),
    }
}

/// Whether `inner` is what creating an account owes to a call that presents
/// `token` at the instant `now`.
pub open spec fn create_with_token_outcome(
    user: NewUserView,
    token: Seq<char>,
    secret: Seq<char>,
    cost: u32,
    now: int,
    inner: Result<NewUser, AuthError>,
) -> bool {
    match presented_claims(token, secret, now) {
        Err(e) => inner == Err::<NewUser, AuthError>(e),
        Ok(claims) => create_account_outcome(Some(claims), user, cost, inner),
    }
}

/// What updating an account owes to a call that presents `token` at the
/// instant `now`.
pub open spec fn update_with_token(
    user: UpdateUserView,
    token: Seq<char>,
    secret: Seq<char>,
    now: int,
) -> Result<(), AuthError> {
    match presented_claims(token, secret, now) {
        Err(e) => Err(e),
        Ok(claims) => admitted_and_valid(
            Some(claims),
            account_fields_check(user.name, user.email, user.role),
        ),
    }
}

/// A rejected token is reported by one and the same error text, whatever the
/// reason for which it was rejected.
pub proof fn lemma_token_failures_read_alike(op: Operation, one: TokenError, other: TokenError)
    ensures
        command_error(op, AuthError::Token(one)) == command_error(op, AuthError::Token(other)),
        command_error(op, AuthError::Token(one)) == token_rejection(),
{
}

/// The error text that tells a caller that the claim's role does not allow
/// the operation.
fn denial(op: Operation) -> (text: &'static str)
    ensures
        text@ == denial_text(op),
{
    match op {
        Operation::CreateUser => "Access denied: only admins can create users",
        Operation::FetchAllUsers => "Access denied: only admins can list users",
        Operation::UpdateUser => "Access denied: only admins can update users",
        Operation::DeleteUser => "Access denied: only admins can delete users",
        _ => "Access denied",
    }
}

/// The error text that reports a failure of a command.
pub fn command_error_text(op: Operation, error: &AuthError) -> (text: String)
    ensures
        text@ == command_error(op, *error),
{
    match error {
        AuthError::MissingToken => token_rejection_text().to_owned(),
        AuthError::Token(e) => e.boundary_message().to_owned(),
        AuthError::Credential => "Invalid credentials.".to_owned(),
        AuthError::Authorization => denial(op).to_owned(),
        AuthError::Validation(e) => validation_text(*e).to_owned(),
        AuthError::Store => internal_failure_text(op).to_owned(),
        AuthError::Hashing(e) => e.detail.clone(),
        AuthError::Issue(e) => issue_text(e),
    }
}

/// Renders the outcome of an operation for the command interface.
pub fn relay<T>(op: Operation, inner: Result<T, AuthError>) -> (res: Result<T, String>)
    ensures
        relayed(op, inner, res),
{
    match inner {
        Ok(value) => Ok(value),
        Err(error) => Err(command_error_text(op, &error)),
    }
}

/// The command's result once the account directory has done an operation's
/// work, or failed to.
pub fn completed_tauri(op: Operation, succeeded: bool) -> (res: Result<(), String>)
    ensures
        match res {
            Ok(()) => succeeded,
            Err(text) => !succeeded && text@ == command_error(op, AuthError::Store),
        },
{
    relay(op, stored(succeeded))
}

/// Registers a new account: the row to store, with the password hashed.
pub fn register_tauri(user: &NewUser, cost: u32) -> (res: Result<NewUser, String>)
    ensures
        exists|inner: Result<NewUser, AuthError>|
            hashed_row_outcome(user@, cost, inner) && #[trigger] relayed(
                Operation::Register,
                inner,
                res,
            ),
{
    let inner = register_account(user, cost);
    let ghost witness = inner;
    let res = relay(Operation::Register, inner);
    assert(relayed(Operation::Register, witness, res));
    res
}

/// Logs in, as of the instant `now`, with the account that the directory
/// holds for the login name, if any.
pub fn login_tauri_at(form: &LoginRequest, account: Option<&User>, secret: &str, now: i64) -> (res:
    Result<LoginResponse, String>)
    ensures
        exists|inner: Result<LoginResponse, AuthError>|
            login_outcome(form@, account_view(account), secret@, now as int, inner)
                && #[trigger] relayed(Operation::Login, inner, res),
{
    let inner = log_in_at(form, account, secret, now);
    let ghost witness = inner;
    let res = relay(Operation::Login, inner);
    assert(relayed(Operation::Login, witness, res));
    res
}

/// Logs in with the account that the directory holds for the login name, if
/// any.
pub fn login_tauri(form: &LoginRequest, account: Option<&User>, secret: &str) -> (res: Result<
    LoginResponse,
    String,
>)
    ensures
        exists|now: int, inner: Result<LoginResponse, AuthError>|
            is_clock_instant(now) && #[trigger] login_outcome(
                form@,
                account_view(account),
                secret@,
                now,
                inner,
            ) && relayed(Operation::Login, inner, res),
{
    login_tauri_at(form, account, secret, unix_time())
}

/// Creates an account on behalf of the administrator who presents `token`,
/// as of the instant `now`: the row to store, with the password hashed.
pub fn create_user_tauri_at(user: &NewUser, token: &str, secret: &str, cost: u32, now: i64) -> (res:
    Result<NewUser, String>)
    ensures
        exists|inner: Result<NewUser, AuthError>|
            #[trigger] create_with_token_outcome(user@, token@, secret@, cost, now as int, inner)
                && relayed(Operation::CreateUser, inner, res),
{
    let inner = match validate_jwt_at(token, secret, now) {
        Err(e) => Err(AuthError::Token(e)),
        Ok(claims) => create_account(Some(&claims), user, cost),
    };
    let ghost witness = inner;
    let res = relay(Operation::CreateUser, inner);
    assert(create_with_token_outcome(user@, token@, secret@, cost, now as int, witness));
    res
}

/// Creates an account on behalf of the administrator who presents `token`:
/// the row to store, with the password hashed.
pub fn create_user_tauri(user: &NewUser, token: &str, secret: &str, cost: u32) -> (res: Result<
    NewUser,
    String,
>)
    ensures
        exists|now: int, inner: Result<NewUser, AuthError>|
            is_clock_instant(now) && #[trigger] create_with_token_outcome(
                user@,
                token@,
                secret@,
                cost,
                now,
                inner,
            ) && relayed(Operation::CreateUser, inner, res),
{
    create_user_tauri_at(user, token, secret, cost, unix_time())
}

/// Admits an admin-only command to the caller who presents `token`, as of
/// the instant `now`.
fn admit_with_token(op: Operation, token: &str, secret: &str, now: i64) -> (res: Result<(), String>)
    ensures
        relayed(op, token_admission(token@, secret@, now as int), res),
{
    match validate_jwt_at(token, secret, now) {
        Err(e) => relay(op, Err(AuthError::Token(e))),
        Ok(claims) => relay(op, require_admin(Some(&claims))),
    }
}

/// Admits the listing of all accounts to the caller who presents `token`, as
/// of the instant `now`.
pub fn fetch_all_users_tauri_at(token: &str, secret: &str, now: i64) -> (res: Result<(), String>)
    ensures
        relayed(Operation::FetchAllUsers, token_admission(token@, secret@, now as int), res),
{
    admit_with_token(Operation::FetchAllUsers, token, secret, now)
}

/// Admits the listing of all accounts to the caller who presents `token`.
pub fn fetch_all_users_tauri(token: &str, secret: &str) -> (res: Result<(), String>)
    ensures
        exists|now: int|
            is_clock_instant(now) && relayed(
                Operation::FetchAllUsers,
                #[trigger] token_admission(token@, secret@, now),
                res,
            ),
{
    fetch_all_users_tauri_at(token, secret, unix_time())
}

/// Admits the update of an account to the caller who presents `token`, as of
/// the instant `now`.
pub fn update_user_tauri_at(user: &UpdateUser, token: &str, secret: &str, now: i64) -> (res: Result<
    (),
    String,
>)
    ensures
        relayed(Operation::UpdateUser, update_with_token(user@, token@, secret@, now as int), res),
{
    match validate_jwt_at(token, secret, now) {
        Err(e) => relay(Operation::UpdateUser, Err(AuthError::Token(e))),
        Ok(claims) => relay(Operation::UpdateUser, update_account(Some(&claims), user)),
    }
}

/// Admits the update of an account to the caller who presents `token`.
pub fn update_user_tauri(user: &UpdateUser, token: &str, secret: &str) -> (res: Result<(), String>)
    ensures
        exists|now: int|
            is_clock_instant(now) && relayed(
                Operation::UpdateUser,
                #[trigger] update_with_token(user@, token@, secret@, now),
                res,
            ),
{
    update_user_tauri_at(user, token, secret, unix_time())
}

/// Admits the deletion of an account to the caller who presents `token`, as
/// of the instant `now`.
pub fn delete_user_tauri_at(token: &str, secret: &str, now: i64) -> (res: Result<(), String>)
    ensures
        relayed(Operation::DeleteUser, token_admission(token@, secret@, now as int), res),
{
    admit_with_token(Operation::DeleteUser, token, secret, now)
}

/// Admits the deletion of an account to the caller who presents `token`.
pub fn delete_user_tauri(token: &str, secret: &str) -> (res: Result<(), String>)
    ensures
        exists|now: int|
            is_clock_instant(now) && relayed(
                Operation::DeleteUser,
                #[trigger] token_admission(token@, secret@, now),
                res,
            ),
{
    delete_user_tauri_at(token, secret, unix_time())
}

} // verus!
