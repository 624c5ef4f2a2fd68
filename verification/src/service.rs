//! The account operations as both entry points run them: guard, policy and
//! payload validation in a fixed order, then the credential work.
//!
//! Nothing here touches the account directory. An operation hands back what
//! is to be stored or sent, or the kind of failure; the caller does the
//! directory's work and renders the outcome for its transport.

use crate::auth::{
    Claims, ClaimsView, create_jwt_at, expiry, issue_outcome, IssueError, TokenError, validated,
};
use crate::hasher::{
    bcrypt_verdict, hash, HashingError, is_digest_of_cost, MAX_COST, MIN_COST, verify,
};
use crate::models::{
    LoginRequest, LoginRequestView, LoginResponse, LoginResponseView, NewUser, NewUserView,
    UpdateUser, User, UserView,
};
use crate::policy::{authorize, Decision, decision, Role, role_named};
use crate::text::{blank, is_blank};
use vstd::prelude::*;

verus! {

/// The operations of the service.
#[derive(Debug, Clone, Copy, PartialEq, Eq, Structural)]
pub enum Operation {
    Register,
    Login,
    Protected,
    CreateUser,
    FetchAllUsers,
    UpdateUser,
    DeleteUser,
}

/// What is wrong with a request payload.
#[derive(Debug, Clone, Copy, PartialEq, Eq, Structural)]
pub enum ValidationError {
    /// A name, login name or role is empty once trimmed.
    MissingField,
    /// The role is neither `admin` nor `user`.
    InvalidRole,
    /// The login name or the password is empty once trimmed.
    EmptyCredentials,
}

/// The kinds of failure an operation can end in.
#[derive(Debug)]
pub enum AuthError {
    /// The call carried no token.
    MissingToken,
    /// The call carried a token that was not accepted.
    Token(TokenError),
    /// The claim's role is not the one the operation requires.
    Authorization,
    /// The request payload is malformed.
    Validation(ValidationError),
    /// Unknown login name or wrong password; the two are not told apart.
    Credential,
    /// The account directory failed.
    Store,
    /// The credential hasher failed.
    Hashing(HashingError),
    /// No token could be issued.
    Issue(IssueError),
}

/// Guard and policy of an admin-only operation: a claim must be there, and
/// its role must be `admin`.
pub open spec fn admission(claims: Option<ClaimsView>) -> Result<(), AuthError> {
    match claims {
        None => Err(AuthError::MissingToken),
        Some(c) => if decision(c, Role::Admin) == Decision::Allow {
            Ok(())
        } else {
            Err(AuthError::Authorization)
        },
    }
}

/// The validation of a name, a login name and a role: none may be blank, and
/// the role must name a role.
pub open spec fn account_fields_check(name: Seq<char>, email: Seq<char>, role: Seq<char>) -> Result<
    (),
    ValidationError,
> {
    if is_blank(name) || is_blank(email) || is_blank(role) {
        Err(ValidationError::MissingField)
    } else if role_named(role) is None {
        Err(ValidationError::InvalidRole)
    } else {
        Ok(())
    }
}

/// The validation of a login: neither the login name nor the password may be
/// blank.
pub open spec fn login_check(form: LoginRequestView) -> Result<(), ValidationError> {
    if is_blank(form.email) || is_blank(form.password) {
        Err(ValidationError::EmptyCredentials)
    } else {
        Ok(())
    }
}

/// A failed admission comes before a failed validation.
pub open spec fn admitted_and_valid(
    claims: Option<ClaimsView>,
    validation: Result<(), ValidationError>,
) -> Result<(), AuthError> {
    match admission(claims) {
        Err(e) => Err(e),
        Ok(()) => match validation {
            Err(e) => Err(AuthError::Validation(e)),
            Ok(()) => Ok(()),
        },
    }
}

/// Whether `res` is a row for `user` in which a digest of the password, made
/// with the work factor `cost`, stands in its place, or a hashing failure.
pub open spec fn hashed_row_outcome(
    user: NewUserView,
    cost: u32,
    res: Result<NewUser, AuthError>,
) -> bool {
    match res {
        Ok(row) => {
            &&& MIN_COST <= cost <= MAX_COST
            &&& is_digest_of_cost(row@.password, cost)
            &&& row@.name == user.name
            &&& row@.email == user.email
            &&& row@.role == user.role
            &&& bcrypt_verdict(user.password, row@.password) == Some(true)
        },
        Err(e) => e is Hashing,
    }
}

/// Whether `res` is what creating an account owes.
pub open spec fn create_account_outcome(
    claims: Option<ClaimsView>,
    user: NewUserView,
    cost: u32,
    res: Result<NewUser, AuthError>,
) -> bool {
    match admitted_and_valid(claims, account_fields_check(user.name, user.email, user.role)) {
        Err(e) => res == Err::<NewUser, AuthError>(e),
        Ok(()) => hashed_row_outcome(user, cost, res),
    }
}

/// Whether `res` is what a login owes at the instant `now`: a payload check,
/// then one generic failure for an unknown login name and for a wrong
/// password, then a token for the account.
pub open spec fn login_outcome(
    form: LoginRequestView,
    account: Option<UserView>,
    secret: Seq<char>,
    now: int,
    res: Result<LoginResponse, AuthError>,
) -> bool {
    match login_check(form) {
        Err(e) => res == Err::<LoginResponse, AuthError>(AuthError::Validation(e)),
        Ok(()) => match account {
            None => res == Err::<LoginResponse, AuthError>(AuthError::Credential),
            Some(user) => match bcrypt_verdict(form.password, user.password) {
                None => res matches Err(AuthError::Hashing(_)),
                Some(false) => res == Err::<LoginResponse, AuthError>(AuthError::Credential),
                Some(true) => match res {
                    Ok(reply) => {
                        &&& reply@.name == user.name
                        &&& reply@.role == user.role
                        &&& issue_outcome(user, secret, now, Ok(reply.token))
                    },
                    Err(e) => e matches AuthError::Issue(cause) && issue_outcome(
                        user,
                        secret,
                        now,
                        Err(cause),
                    ),
                },
            },
        },
    }
}

/// The body that tells a caller that an operation failed inside the service.
/// It names the operation and nothing of the cause.
pub open spec fn internal_failure_body(op: Operation) -> Seq<char> {
    match op {
        Operation::Register => "Failed to register user"@,
        Operation::Login => "Failed to log in"@,
        Operation::Protected => "Internal error"@,
        Operation::CreateUser => "Error creating user"@,
        Operation::FetchAllUsers => "Failed to fetch users"@,
        Operation::UpdateUser => "Error updating user"@,
        Operation::DeleteUser => "Error deleting user"@,
    }
}

/// The body that tells a caller what is wrong with a payload.
pub open spec fn validation_body(error: ValidationError) -> Seq<char> {
    match error {
        ValidationError::MissingField => "All fields are required"@,
        ValidationError::InvalidRole => "Invalid role. Only 'admin' or 'user' roles are allowed."@,
        ValidationError::EmptyCredentials => "Email and password cannot be empty."@,
    }
}

/// The body that tells a caller that no token was issued.
pub open spec fn issue_body(error: IssueError) -> Seq<char> {
    match error {
        IssueError::ClockOutOfRange => "JWT creation failed: expiry out of range"@,
        IssueError::Signing { detail } => "JWT creation failed: "@ + detail@,
    }
}

/// What presenting `token` at the instant `now` yields: the claim it
/// carries, or the failure of the token codec.
pub open spec fn presented_claims(token: Seq<char>, secret: Seq<char>, now: int) -> Result<
    ClaimsView,
    AuthError,
> {
    match validated(token, secret, now) {
        Ok(claims) => Ok(claims),
        Err(e) => Err(AuthError::Token(e)),
    }
}

/// Guard and policy of an admin-only operation on a call that presents
/// `token` at the instant `now`.
pub open spec fn token_admission(token: Seq<char>, secret: Seq<char>, now: int) -> Result<
    (),
    AuthError,
> {
    match presented_claims(token, secret, now) {
        Ok(claims) => admission(Some(claims)),
        Err(e) => Err(e),
    }
}

/// The claims of an optional claim.
pub open spec fn claims_view(claims: Option<&Claims>) -> Option<ClaimsView> {
    match claims {
        Some(c) => Some(c@),
        None => None,
    }
}

/// The account of an optional account.
pub open spec fn account_view(account: Option<&User>) -> Option<UserView> {
    match account {
        Some(u) => Some(u@),
        None => None,
    }
}

/// A call without a claim fails as unauthenticated and a call whose claim is
/// not an administrator's as forbidden, whatever the payload holds: guard
/// and policy come before the payload's validation.
pub proof fn lemma_admission_comes_first(
    claims: Option<ClaimsView>,
    validation: Result<(), ValidationError>,
)
    ensures
        claims is None ==> admitted_and_valid(claims, validation) == Err::<(), AuthError>(
            AuthError::MissingToken,
        ),
        claims matches Some(c) && c.role != Role::Admin.name() ==> admitted_and_valid(
            claims,
            validation,
        ) == Err::<(), AuthError>(AuthError::Authorization),
        claims matches Some(c) && c.role == Role::Admin.name() ==> admitted_and_valid(
            claims,
            validation,
        ) == match validation {
            Ok(()) => Ok::<(), AuthError>(()),
            Err(e) => Err::<(), AuthError>(AuthError::Validation(e)),
        },
{
}

/// An admin-only operation goes ahead only for a call that carries a claim
/// whose role is `admin`.
pub proof fn lemma_go_ahead_needs_admin(
    claims: Option<ClaimsView>,
    validation: Result<(), ValidationError>,
)
    requires
        admitted_and_valid(claims, validation) is Ok,
    ensures
        claims matches Some(c) && c.role == Role::Admin.name(),
        validation is Ok,
{
}

/// A login with a wrong password ends exactly as a login under an unknown
/// login name does.
pub proof fn lemma_wrong_password_is_unknown_name(
    form: LoginRequestView,
    account: UserView,
    secret: Seq<char>,
    now: int,
    res: Result<LoginResponse, AuthError>,
)
    requires
        bcrypt_verdict(form.password, account.password) == Some(false),
    ensures
        login_outcome(form, Some(account), secret, now, res) <==> login_outcome(
            form,
            None,
            secret,
            now,
            res,
        ),
{
}

/// A login with the password that the stored digest verifies succeeds
/// wherever the token's expiration is representable: the reply carries the
/// account's name and role and a token that is valid at that instant for the
/// account's login name and role. It is never the credentials failure.
pub proof fn lemma_right_password_logs_in(
    form: LoginRequestView,
    account: UserView,
    secret: Seq<char>,
    now: int,
    res: Result<LoginResponse, AuthError>,
)
    requires
        login_check(form) is Ok,
        bcrypt_verdict(form.password, account.password) == Some(true),
        0 <= expiry(now) <= usize::MAX,
        login_outcome(form, Some(account), secret, now, res),
    ensures
        res matches Ok(reply) && reply@.name == account.name && reply@.role == account.role
            && validated(reply@.token, secret, now) == Ok::<ClaimsView, TokenError>(
            ClaimsView { sub: account.email, role: account.role, exp: expiry(now) as nat },
        ),
{
}

/// The password under which an account was registered or created logs in
/// to it: the digest in the stored row verifies that password, so the login
/// yields a token wherever the token's expiration is representable.
pub proof fn lemma_registered_password_logs_in(
    user: NewUserView,
    cost: u32,
    row: NewUser,
    form: LoginRequestView,
    account: UserView,
    secret: Seq<char>,
    now: int,
    res: Result<LoginResponse, AuthError>,
)
    requires
        hashed_row_outcome(user, cost, Ok(row)),
        account.password == row@.password,
        form.password == user.password,
        login_check(form) is Ok,
        0 <= expiry(now) <= usize::MAX,
        login_outcome(form, Some(account), secret, now, res),
    ensures
        bcrypt_verdict(form.password, account.password) == Some(true),
        res matches Ok(reply) && reply@.name == account.name && reply@.role == account.role
            && validated(reply@.token, secret, now) is Ok,
{
    lemma_right_password_logs_in(form, account, secret, now, res);
}

/// Runs guard and policy of an admin-only operation on the claim that the
/// call carries, if any.
pub fn require_admin(claims: Option<&Claims>) -> (res: Result<(), AuthError>)
    ensures
        res == admission(claims_view(claims)),
{
    match claims {
        None => Err(AuthError::MissingToken),
        Some(c) => match authorize(c, Role::Admin) {
            Decision::Allow => Ok(()),
            Decision::Deny => Err(AuthError::Authorization),
        },
    }
}

/// Validates a name, a login name and a role.
pub fn check_account_fields(name: &str, email: &str, role: &str) -> (res: Result<
    (),
    ValidationError,
>)
    ensures
        res == account_fields_check(name@, email@, role@),
{
    if blank(name) || blank(email) || blank(role) {
        Err(ValidationError::MissingField)
    } else if Role::parse(role).is_none() {
        Err(ValidationError::InvalidRole)
    } else {
        Ok(())
    }
}

/// Validates the payload of a login.
pub fn check_login(form: &LoginRequest) -> (res: Result<(), ValidationError>)
    ensures
        res == login_check(form@),
{
    if blank(form.email.as_str()) || blank(form.password.as_str()) {
        Err(ValidationError::EmptyCredentials)
    } else {
        Ok(())
    }
}

/// The row to store for `user` once its password was hashed, or the failure
/// of the hasher.
pub fn row_with_digest(user: &NewUser, digest: Result<String, HashingError>) -> (res: Result<
    NewUser,
    AuthError,
>)
    ensures
        match digest {
            Ok(d) => res matches Ok(row) && row@ == (NewUserView { password: d@, ..user@ }),
            Err(e) => res == Err::<NewUser, AuthError>(AuthError::Hashing(e)),
        },
{
    match digest {
        Ok(d) => Ok(
            NewUser {
                name: user.name.clone(),
                email: user.email.clone(),
                role: user.role.clone(),
                password: d,
            },
        ),
        Err(e) => Err(AuthError::Hashing(e)),
    }
}

/// Registers an account: hashes the password and hands back the row to
/// store. Registration needs no claim and validates nothing.
pub fn register_account(user: &NewUser, cost: u32) -> (res: Result<NewUser, AuthError>)
    ensures
        hashed_row_outcome(user@, cost, res),
{
    row_with_digest(user, hash(user.password.as_str(), cost))
}

/// Creates an account on behalf of an administrator: guard and policy, then
/// the payload's validation, then the hashing of the password.
pub fn create_account(claims: Option<&Claims>, user: &NewUser, cost: u32) -> (res: Result<
    NewUser,
    AuthError,
>)
    ensures
        create_account_outcome(claims_view(claims), user@, cost, res),
{
    match require_admin(claims) {
        Err(e) => Err(e),
        Ok(()) => match check_account_fields(
            user.name.as_str(),
            user.email.as_str(),
            user.role.as_str(),
        ) {
            Err(e) => Err(AuthError::Validation(e)),
            Ok(()) => row_with_digest(user, hash(user.password.as_str(), cost)),
        },
    }
}

/// Admits the listing of all accounts: guard and policy.
pub fn list_accounts(claims: Option<&Claims>) -> (res: Result<(), AuthError>)
    ensures
        res == admission(claims_view(claims)),
{
    require_admin(claims)
}

/// Admits the update of an account: guard and policy, then the payload's
/// validation.
pub fn update_account(claims: Option<&Claims>, user: &UpdateUser) -> (res: Result<(), AuthError>)
    ensures
        res == admitted_and_valid(
            claims_view(claims),
            account_fields_check(user@.name, user@.email, user@.role),
        ),
{
    match require_admin(claims) {
        Err(e) => Err(e),
        Ok(()) => match check_account_fields(
            user.name.as_str(),
            user.email.as_str(),
            user.role.as_str(),
        ) {
            Err(e) => Err(AuthError::Validation(e)),
            Ok(()) => Ok(()),
        },
    }
}

/// Admits the deletion of an account: guard and policy.
pub fn delete_account(claims: Option<&Claims>) -> (res: Result<(), AuthError>)
    ensures
        res == admission(claims_view(claims)),
{
    require_admin(claims)
}

/// The outcome of an operation whose directory work succeeded or failed.
pub fn stored(succeeded: bool) -> (res: Result<(), AuthError>)
    ensures
        res == if succeeded {
            Ok::<(), AuthError>(())
        } else {
            Err::<(), AuthError>(AuthError::Store)
        },
{
    if succeeded {
        Ok(())
    } else {
        Err(AuthError::Store)
    }
}

/// The reply to a login whose credentials were accepted, from the outcome of
/// issuing the token.
pub fn login_reply(account: &User, issued: Result<String, IssueError>) -> (res: Result<
    LoginResponse,
    AuthError,
>)
    ensures
        match issued {
            Ok(token) => res matches Ok(reply) && reply@ == (LoginResponseView {
                token: token@,
                name: account@.name,
                role: account@.role,
            }) && reply.token == token,
            Err(e) => res == Err::<LoginResponse, AuthError>(AuthError::Issue(e)),
        },
{
    match issued {
        Ok(token) => Ok(
            LoginResponse { token, name: account.name.clone(), role: account.role.clone() },
        ),
        Err(e) => Err(AuthError::Issue(e)),
    }
}

/// Logs in as of the instant `now`: checks the payload, then the password
/// against the account that the directory holds for the login name, if any,
/// then issues a token.
pub fn log_in_at(form: &LoginRequest, account: Option<&User>, secret: &str, now: i64) -> (res:
    Result<LoginResponse, AuthError>)
    ensures
        login_outcome(form@, account_view(account), secret@, now as int, res),
{
    match check_login(form) {
        Err(e) => Err(AuthError::Validation(e)),
        Ok(()) => match account {
            None => Err(AuthError::Credential),
            Some(user) => match verify(form.password.as_str(), user.password.as_str()) {
                Err(e) => Err(AuthError::Hashing(e)),
                Ok(false) => Err(AuthError::Credential),
                Ok(true) => login_reply(user, create_jwt_at(user, secret, now)),
            },
        },
    }
}

/// The body that tells a caller that an operation failed inside the service.
pub fn internal_failure_text(op: Operation) -> (body: &'static str)
    ensures
        body@ == internal_failure_body(op),
{
    match op {
        Operation::Register => "Failed to register user",
        Operation::Login => "Failed to log in",
        Operation::Protected => "Internal error",
        Operation::CreateUser => "Error creating user",
        Operation::FetchAllUsers => "Failed to fetch users",
        Operation::UpdateUser => "Error updating user",
        Operation::DeleteUser => "Error deleting user",
    }
}

/// The body that tells a caller what is wrong with a payload.
pub fn validation_text(error: ValidationError) -> (body: &'static str)
    ensures
        body@ == validation_body(error),
{
    match error {
        ValidationError::MissingField => "All fields are required",
        ValidationError::InvalidRole => "Invalid role. Only 'admin' or 'user' roles are allowed.",
        ValidationError::EmptyCredentials => "Email and password cannot be empty.",
    }
}

/// The body that tells a caller that no token was issued.
pub fn issue_text(error: &IssueError) -> (body: String)
    ensures
        body@ == issue_body(*error),
{
    match error {
        IssueError::ClockOutOfRange => "JWT creation failed: expiry out of range".to_owned(),
        IssueError::Signing { detail } => {
            let mut body = "JWT creation failed: ".to_owned();
            body.append(detail.as_str());
            body
        },
    }
}

} // verus!
