//! The operations as the network entry point runs them: the decisions of
//! each request handler, with every failure rendered as a status code and a
//! body text.
//!
//! A handler in the caller's code asks the function of the same name what to
//! do, does the account directory's work where it is told to, and sends the
//! reply that [`completed`] gives for the outcome.

use crate::api_response::{
    ApiResponse, ApiResponseView, BAD_REQUEST, CREATED, FORBIDDEN, INTERNAL_ERROR, OK,
    UNAUTHENTICATED,
};
use crate::auth::{
    Claims, ClaimsView, is_clock_instant, token_rejection, TokenError, unix_time,
};
use crate::models::{LoginRequest, LoginResponse, NewUser, UpdateUser, User};
use crate::policy::Role;
use crate::service::{
    account_fields_check, account_view, admission, admitted_and_valid, AuthError, claims_view,
    create_account, create_account_outcome, delete_account, hashed_row_outcome,
    internal_failure_body, internal_failure_text, issue_body, issue_text, list_accounts, log_in_at,
    login_outcome, Operation, register_account, update_account, validation_body, validation_text,
    ValidationError,
};
use vstd::prelude::*;

verus! {

/// The status under which a kind of failure is reported.
pub open spec fn failure_status(error: AuthError) -> u16 {
    match error {
        AuthError::MissingToken => UNAUTHENTICATED,
        AuthError::Token(_) => UNAUTHENTICATED,
        AuthError::Credential => UNAUTHENTICATED,
        AuthError::Authorization => FORBIDDEN,
        AuthError::Validation(_) => BAD_REQUEST,
        AuthError::Store => INTERNAL_ERROR,
        AuthError::Hashing(_) => INTERNAL_ERROR,
        AuthError::Issue(_) => INTERNAL_ERROR,
    }
}

/// The body under which a failure of an operation is reported.
pub open spec fn failure_body(op: Operation, error: AuthError) -> Seq<char> {
    match error {
        AuthError::MissingToken => if op == Operation::Protected {
            "Missing or invalid token"@
        } else {
            "Missing token claims"@
        },
        AuthError::Token(_) => token_rejection(),
        AuthError::Credential => "Invalid credentials"@,
        AuthError::Authorization => if op == Operation::CreateUser {
            "Admins only can create new users"@
        } else {
            "Admins only"@
        },
        AuthError::Validation(e) => validation_body(e),
        AuthError::Store => internal_failure_body(op),
        AuthError::Hashing(_) => internal_failure_body(op),
        AuthError::Issue(e) => issue_body(e),
    }
}

/// The reply that reports a failure of an operation.
pub open spec fn failure_reply(op: Operation, error: AuthError) -> ApiResponseView {
    ApiResponseView { status_code: failure_status(error) as int, body: failure_body(op, error) }
}

/// The reply that reports that an operation is done. A registration is
/// answered without content. Where the operation hands data back, the body
/// is left empty for the caller to fill.
pub open spec fn success_reply(op: Operation) -> ApiResponseView {
    match op {
        Operation::Register => ApiResponseView { status_code: CREATED as int, body: Seq::empty() },
        Operation::CreateUser => ApiResponseView {
            status_code: CREATED as int,
            body: "User created successfully"@,
        },
        Operation::UpdateUser => ApiResponseView { status_code: OK as int, body: "User updated"@ },
        Operation::DeleteUser => ApiResponseView { status_code: OK as int, body: "User deleted"@ },
        _ => ApiResponseView { status_code: OK as int, body: Seq::empty() },
    }
}

/// Whether `res` renders `inner` for the network: a value is handed on as it
/// is, a failure becomes its reply.
pub open spec fn rendered<T>(
    op: Operation,
    inner: Result<T, AuthError>,
    res: Result<T, ApiResponse>,
) -> bool {
    match inner {
        Ok(value) => res matches Ok(v) && v == value,
        Err(error) => res matches Err(reply) && reply@ == failure_reply(op, error),
    }
}

/// A failed admin-only operation is reported under the status of its first
/// failure: unauthenticated without a claim, else forbidden unless the
/// claim's role is `admin`, else bad request for a malformed payload.
pub proof fn lemma_status_of_first_failure(
    claims: Option<ClaimsView>,
    validation: Result<(), ValidationError>,
)
    requires
        admitted_and_valid(claims, validation) is Err,
    ensures
        failure_status(admitted_and_valid(claims, validation)->Err_0) == if claims is None {
            UNAUTHENTICATED
        } else if claims->0.role != Role::Admin.name() {
            FORBIDDEN
        } else {
            BAD_REQUEST
        },
{
}

/// A rejected token is reported by one and the same reply, whatever the
/// reason for which it was rejected.
pub proof fn lemma_token_failures_read_alike(op: Operation, one: TokenError, other: TokenError)
    ensures
        failure_reply(op, AuthError::Token(one)) == failure_reply(op, AuthError::Token(other)),
        failure_reply(op, AuthError::Token(one)).status_code == UNAUTHENTICATED,
        failure_reply(op, AuthError::Token(one)).body == token_rejection(),
{
}

/// The reply that reports a failure of an operation.
pub fn failure_response(op: Operation, error: &AuthError) -> (reply: ApiResponse)
    ensures
        reply.well_formed(),
        reply@ == failure_reply(op, *error),
{
    match error {
        AuthError::MissingToken => match op {
            Operation::Protected => ApiResponse::with_text(
                UNAUTHENTICATED,
                "Missing or invalid token",
            ),
            _ => ApiResponse::with_text(UNAUTHENTICATED, "Missing token claims"),
        },
        AuthError::Token(e) => ApiResponse::with_text(UNAUTHENTICATED, e.boundary_message()),
        AuthError::Credential => ApiResponse::with_text(UNAUTHENTICATED, "Invalid credentials"),
        AuthError::Authorization => match op {
            Operation::CreateUser => ApiResponse::with_text(
                FORBIDDEN,
                "Admins only can create new users",
            ),
            _ => ApiResponse::with_text(FORBIDDEN, "Admins only"),
        },
        AuthError::Validation(e) => ApiResponse::with_text(BAD_REQUEST, validation_text(*e)),
        AuthError::Store => ApiResponse::with_text(INTERNAL_ERROR, internal_failure_text(op)),
        AuthError::Hashing(_) => ApiResponse::with_text(INTERNAL_ERROR, internal_failure_text(op)),
        AuthError::Issue(e) => ApiResponse::new(INTERNAL_ERROR, issue_text(e)),
    }
}

/// Renders the outcome of an operation for the network.
pub fn respond<T>(op: Operation, inner: Result<T, AuthError>) -> (res: Result<T, ApiResponse>)
    ensures
        rendered(op, inner, res),
{
    match inner {
        Ok(value) => Ok(value),
        Err(error) => Err(failure_response(op, &error)),
    }
}

/// The reply once the account directory has done an operation's work, or
/// failed to.
pub fn completed(op: Operation, succeeded: bool) -> (reply: ApiResponse)
    ensures
        reply.well_formed(),
        reply@ == if succeeded {
            success_reply(op)
        } else {
            failure_reply(op, AuthError::Store)
        },
{
    if !succeeded {
        return failure_response(op, &AuthError::Store);
    }
    match op {
        Operation::Register => ApiResponse::new(CREATED, String::new()),
        Operation::CreateUser => ApiResponse::with_text(CREATED, "User created successfully"),
        Operation::UpdateUser => ApiResponse::with_text(OK, "User updated"),
        Operation::DeleteUser => ApiResponse::with_text(OK, "User deleted"),
        _ => ApiResponse::new(OK, String::new()),
    }
}

/// Registers a new account: the row to store, with the password hashed.
pub fn register(form: &NewUser, cost: u32) -> (res: Result<NewUser, ApiResponse>)
    ensures
        exists|inner: Result<NewUser, AuthError>|
            hashed_row_outcome(form@, cost, inner) && #[trigger] rendered(
                Operation::Register,
                inner,
                res,
            ),
{
    let inner = register_account(form, cost);
    let ghost witness = inner;
    let res = respond(Operation::Register, inner);
    assert(rendered(Operation::Register, witness, res));
    res
}

/// Logs in, as of the instant `now`, with the account that the directory
/// holds for the login name, if any.
pub fn login_at(form: &LoginRequest, account: Option<&User>, secret: &str, now: i64) -> (res:
    Result<LoginResponse, ApiResponse>)
    ensures
        exists|inner: Result<LoginResponse, AuthError>|
            login_outcome(form@, account_view(account), secret@, now as int, inner)
                && #[trigger] rendered(Operation::Login, inner, res),
{
    let inner = log_in_at(form, account, secret, now);
    let ghost witness = inner;
    let res = respond(Operation::Login, inner);
    assert(rendered(Operation::Login, witness, res));
    res
}

/// Logs in with the account that the directory holds for the login name, if
/// any.
pub fn login(form: &LoginRequest, account: Option<&User>, secret: &str) -> (res: Result<
    LoginResponse,
    ApiResponse,
>)
    ensures
        exists|now: int, inner: Result<LoginResponse, AuthError>|
            is_clock_instant(now) && #[trigger] login_outcome(
                form@,
                account_view(account),
                secret@,
                now,
                inner,
            ) && rendered(Operation::Login, inner, res),
{
    login_at(form, account, secret, unix_time())
}

/// Hands the claim that the guard attached to the call back to its holder.
pub fn protected(claims: Option<&Claims>) -> (res: Result<Claims, ApiResponse>)
    ensures
        match claims {
            Some(c) => res matches Ok(shown) && shown@ == c@,
            None => res matches Err(reply) && reply@ == failure_reply(
                Operation::Protected,
                AuthError::MissingToken,
            ),
        },
{
    match claims {
        Some(c) => Ok(Claims { sub: c.sub.clone(), role: c.role.clone(), exp: c.exp }),
        None => Err(failure_response(Operation::Protected, &AuthError::MissingToken)),
    }
}

/// Creates an account on behalf of an administrator: the row to store, with
/// the password hashed.
pub fn create_user(claims: Option<&Claims>, user: &NewUser, cost: u32) -> (res: Result<
    NewUser,
    ApiResponse,
>)
    ensures
        exists|inner: Result<NewUser, AuthError>|
            create_account_outcome(claims_view(claims), user@, cost, inner) && #[trigger] rendered(
                Operation::CreateUser,
                inner,
                res,
            ),
{
    let inner = create_account(claims, user, cost);
    let ghost witness = inner;
    let res = respond(Operation::CreateUser, inner);
    assert(rendered(Operation::CreateUser, witness, res));
    res
}

/// Admits the listing of all accounts.
pub fn fetch_all_users(claims: Option<&Claims>) -> (res: Result<(), ApiResponse>)
    ensures
        rendered(Operation::FetchAllUsers, admission(claims_view(claims)), res),
{
    respond(Operation::FetchAllUsers, list_accounts(claims))
}

/// Admits the update of an account.
pub fn update_user(claims: Option<&Claims>, user: &UpdateUser) -> (res: Result<(), ApiResponse>)
    ensures
        rendered(
            Operation::UpdateUser,
            admitted_and_valid(
                claims_view(claims),
                account_fields_check(user@.name, user@.email, user@.role),
            ),
            res,
        ),
{
    respond(Operation::UpdateUser, update_account(claims, user))
}

/// Admits the deletion of an account.
pub fn delete_user(claims: Option<&Claims>) -> (res: Result<(), ApiResponse>)
    ensures
        rendered(Operation::DeleteUser, admission(claims_view(claims)), res),
{
    respond(Operation::DeleteUser, delete_account(claims))
}

} // verus!
