//! Token codec: issues and validates signed, time-limited tokens that carry
//! a login name and a role.
//!
//! A token is a JSON Web Token signed with HMAC-SHA-256 under the service's
//! secret. Its claim set holds `sub` (the login name), `role`, `iat` (the
//! instant of issuance) and `exp` (the expiration instant), both instants in
//! seconds since the Unix epoch. Signing and opening are done by the
//! `jsonwebtoken` crate; the expiry rule is checked here.

use crate::models::{User, UserView};
use vstd::prelude::*;

verus! {

/// How long a token stays valid after it was issued, in seconds.
pub const TOKEN_LIFETIME: i64 = 3600;

/// The identity claim that a valid token yields.
#[derive(Debug, Clone)]
pub struct Claims {
    /// The login name.
    pub sub: String,
    /// The role, `admin` or `user`.
    pub role: String,
    /// The expiration instant, in seconds since the Unix epoch.
    pub exp: usize,
}

/// The mathematical value of a [`Claims`].
pub struct ClaimsView {
    pub sub: Seq<char>,
    pub role: Seq<char>,
    pub exp: nat,
}

impl View for Claims {
    type V = ClaimsView;

    open spec fn view(&self) -> ClaimsView {
        ClaimsView { sub: self.sub@, role: self.role@, exp: self.exp as nat }
    }
}

/// Why a token was not accepted.
#[derive(Debug, Clone, Copy, PartialEq, Eq, Structural)]
pub enum TokenError {
    /// The text is not a token of the expected shape.
    Malformed,
    /// The signature does not verify against the secret.
    BadSignature,
    /// The expiration instant has passed.
    Expired,
}

/// The one message under which every rejected token is reported to a
/// caller, whatever the reason.
pub open spec fn token_rejection() -> Seq<char> {
    "Invalid or expired token"@
}

/// The one message under which every rejected token is reported to a
/// caller.
pub fn token_rejection_text() -> (message: &'static str)
    ensures
        message@ == token_rejection(),
{
    "Invalid or expired token"
}

impl TokenError {
    /// The message under which this failure is reported to a caller. It is
    /// the same for every failure, so that a caller cannot tell them apart.
    pub fn boundary_message(self) -> (message: &'static str)
        ensures
            message@ == token_rejection(),
    {
        token_rejection_text()
    }
}

/// Why no token was issued.
#[derive(Debug)]
pub enum IssueError {
    /// The expiration instant is not a representable time.
    ClockOutOfRange,
    /// The signing call reported a failure. Under a secret as the key it
    /// reports none; the failure is handed on should it ever come.
    Signing { detail: String },
}

/// The three claims as they are read from an opened token. A claim is absent
/// where the token does not hold it in the expected form: `sub` and `role`
/// as strings, `exp` as an integer in `0..=u64::MAX`.
#[derive(Debug)]
pub struct RawClaims {
    pub sub: Option<String>,
    pub role: Option<String>,
    pub exp: Option<u64>,
}

/// The mathematical value of a [`RawClaims`].
pub struct RawClaimsView {
    pub sub: Option<Seq<char>>,
    pub role: Option<Seq<char>>,
    pub exp: Option<u64>,
}

/// The characters of an optional text.
pub open spec fn text_view(text: Option<String>) -> Option<Seq<char>> {
    match text {
        Some(s) => Some(s@),
        None => None,
    }
}

impl View for RawClaims {
    type V = RawClaimsView;

    open spec fn view(&self) -> RawClaimsView {
        RawClaimsView { sub: text_view(self.sub), role: text_view(self.role), exp: self.exp }
    }
}

/// Why a token could not be opened.
#[derive(Debug, Clone, Copy, PartialEq, Eq, Structural)]
pub enum OpenFailure {
    /// The signature does not match the token's header and claim set.
    SignatureMismatch,
    /// Anything else: the text is no token, is signed otherwise, or lacks a
    /// claim that every token must hold.
    Unreadable,
}

/// The error of the `jsonwebtoken` crate, carried as an opaque value.
#[verifier::external_type_specification]
#[verifier::external_body]
pub struct ExTokenFault(jsonwebtoken::errors::Error);

/// The token that `jsonwebtoken::encode` yields for the claim set `{sub,
/// role, iat, exp}` under a secret with the default header.
pub uninterp spec fn signed_token(
    sub: Seq<char>,
    role: Seq<char>,
    iat: int,
    exp: nat,
    secret: Seq<char>,
) -> Seq<char>;

/// What `jsonwebtoken::decode` yields for a token under a secret when it
/// verifies the HMAC-SHA-256 signature and leaves the expiry unchecked: the
/// claims `sub`, `role` and `exp` of the claim set, or why there is none.
pub uninterp spec fn opened_token(token: Seq<char>, secret: Seq<char>) -> Result<
    RawClaimsView,
    OpenFailure,
>;

/// What opening a token yields that holds these three claims.
pub open spec fn opened_claims(sub: Seq<char>, role: Seq<char>, exp: usize) -> Result<
    RawClaimsView,
    OpenFailure,
> {
    Ok(RawClaimsView { sub: Some(sub), role: Some(role), exp: Some(exp as u64) })
}

/// What opening a token yields, as a mathematical value.
pub open spec fn opened_view(res: Result<RawClaims, OpenFailure>) -> Result<
    RawClaimsView,
    OpenFailure,
> {
    match res {
        Ok(raw) => Ok(raw@),
        Err(e) => Err(e),
    }
}

/// Whether `now` is an instant that the system clock can show: at or after
/// the Unix epoch.
pub open spec fn is_clock_instant(now: int) -> bool {
    0 <= now <= i64::MAX
}

/// Reads the system clock with `chrono::Utc::now` and returns its
/// `timestamp`, the seconds since the Unix epoch.
///
/// Assumed of it: the instant that comes back lies at or after the epoch.
/// The call panics where the system clock stands before the epoch.
#[verifier::external_body]
pub(crate) fn unix_time() -> (now: i64)
    ensures
        is_clock_instant(now as int),
{
    chrono::Utc::now().timestamp()
}

/// Calls `jsonwebtoken::encode` with the default header (HMAC-SHA-256) on the
/// claim set `{"sub", "role", "iat", "exp"}` under `secret`.
///
/// Assumed of it: with a secret as the key it succeeds, the token depends on
/// the arguments alone, and it is one that `jsonwebtoken::decode` opens
/// under the same secret to a claim set with the same `sub`, `role` and
/// `exp`.
#[verifier::external_body]
fn sign_claims(sub: &str, role: &str, iat: i64, exp: usize, secret: &str) -> (res: Result<
    String,
    jsonwebtoken::errors::Error,
>)
    ensures
        res is Ok,
        res matches Ok(token) ==> token@ == signed_token(
            sub@,
            role@,
            iat as int,
            exp as nat,
            secret@,
        ),
        res matches Ok(token) ==> opened_token(token@, secret@) == opened_claims(sub@, role@, exp),
{
    let mut payload = serde_json::Map::new();
    payload.insert(String::from("sub"), serde_json::Value::from(sub));
    payload.insert(String::from("role"), serde_json::Value::from(role));
    payload.insert(String::from("iat"), serde_json::Value::from(iat));
    payload.insert(String::from("exp"), serde_json::Value::from(exp));
    let key = jsonwebtoken::EncodingKey::from_secret(secret.as_bytes());
    jsonwebtoken::encode(&jsonwebtoken::Header::default(), &payload, &key)
}

/// Calls `jsonwebtoken::decode` for HMAC-SHA-256 under `secret`, with the
/// crate's own expiry check switched off, and reads `sub`, `role` and `exp`
/// from the claim set with `serde_json::Value::get`, `as_str` and `as_u64`.
/// An error of the kind `InvalidSignature` comes back as
/// `SignatureMismatch`, any other as `Unreadable`.
///
/// Assumed of it: the outcome depends on the arguments alone.
#[verifier::external_body]
fn open_token(token: &str, secret: &str) -> (res: Result<RawClaims, OpenFailure>)
    ensures
        opened_view(res) == opened_token(token@, secret@),
{
    let mut rules = jsonwebtoken::Validation::new(jsonwebtoken::Algorithm::HS256);
    rules.validate_exp = false;
    let key = jsonwebtoken::DecodingKey::from_secret(secret.as_bytes());
    match jsonwebtoken::decode::<serde_json::Value>(token, &key, &rules) {
        Ok(data) => Ok(RawClaims {
            sub: data.claims.get("sub").and_then(serde_json::Value::as_str).map(String::from),
            role: data.claims.get("role").and_then(serde_json::Value::as_str).map(String::from),
            exp: data.claims.get("exp").and_then(serde_json::Value::as_u64),
        }),
        Err(fault) => Err(match fault.kind() {
            jsonwebtoken::errors::ErrorKind::InvalidSignature => OpenFailure::SignatureMismatch,
            _ => OpenFailure::Unreadable,
        }),
    }
}

/// Renders a `jsonwebtoken::errors::Error` with its `Display` impl.
#[verifier::external_body]
fn fault_text(fault: &jsonwebtoken::errors::Error) -> String {
    fault.to_string()
}

/// The expiration instant of a token issued at `now`.
pub open spec fn expiry(now: int) -> int {
    now + TOKEN_LIFETIME
}

/// The identity claim that the claims read from a token yield at the instant
/// `now`: all three must be there, the expiration instant must fit the
/// machine, and `now` must lie strictly before it.
pub open spec fn checked_claims(raw: RawClaimsView, now: int) -> Result<ClaimsView, TokenError> {
    if raw.sub is None || raw.role is None || raw.exp is None || raw.exp->0 > usize::MAX {
        Err(TokenError::Malformed)
    } else if now >= raw.exp->0 {
        Err(TokenError::Expired)
    } else {
        Ok(ClaimsView { sub: raw.sub->0, role: raw.role->0, exp: raw.exp->0 as nat })
    }
}

/// What validating `token` under `secret` at the instant `now` yields: the
/// signature is checked first, then the shape, then the expiry.
pub open spec fn validated(token: Seq<char>, secret: Seq<char>, now: int) -> Result<
    ClaimsView,
    TokenError,
> {
    match opened_token(token, secret) {
        Err(OpenFailure::SignatureMismatch) => Err(TokenError::BadSignature),
        Err(OpenFailure::Unreadable) => Err(TokenError::Malformed),
        Ok(raw) => checked_claims(raw, now),
    }
}

/// Whether `res` is what validation owes for `token` under `secret` at `now`.
pub open spec fn validation_outcome(
    token: Seq<char>,
    secret: Seq<char>,
    now: int,
    res: Result<Claims, TokenError>,
) -> bool {
    match validated(token, secret, now) {
        Ok(claims) => res matches Ok(c) && c@ == claims,
        Err(e) => res matches Err(x) && x == e,
    }
}

/// Whether `res` is what issuing a token for `user` under `secret` at `now`
/// owes: no token where the expiration instant is not representable, else
/// always the signed claim set `{sub: email, role, iat: now, exp: now +
/// TOKEN_LIFETIME}`; and a token that was issued validates to a claim with
/// this login name, role and expiration at every instant before its
/// expiration and is expired from then on.
pub open spec fn issue_outcome(
    user: UserView,
    secret: Seq<char>,
    now: int,
    res: Result<String, IssueError>,
) -> bool {
    let exp = expiry(now);
    if !(0 <= exp <= usize::MAX) {
        res matches Err(IssueError::ClockOutOfRange)
    } else {
        let token = signed_token(user.email, user.role, now, exp as nat, secret);
        &&& res matches Ok(t)
        &&& t@ == token
        &&& forall|at: int|
            #[trigger] validated(token, secret, at) == if at < exp {
                Ok::<ClaimsView, TokenError>(
                    ClaimsView { sub: user.email, role: user.role, exp: exp as nat },
                )
            } else {
                Err::<ClaimsView, TokenError>(TokenError::Expired)
            }
    }
}

/// Builds the identity claim from the claims read from an opened token, at
/// the instant `now`.
pub fn claims_from(raw: RawClaims, now: i64) -> (res: Result<Claims, TokenError>)
    ensures
        match checked_claims(raw@, now as int) {
            Ok(claims) => res matches Ok(c) && c@ == claims,
            Err(e) => res matches Err(x) && x == e,
        },
{
    match (raw.sub, raw.role, raw.exp) {
        (Some(sub), Some(role), Some(exp)) => {
            if exp > usize::MAX as u64 {
                Err(TokenError::Malformed)
            } else if now >= 0 && now as u64 >= exp {
                Err(TokenError::Expired)
            } else {
                Ok(Claims { sub, role, exp: exp as usize })
            }
        },
        _ => Err(TokenError::Malformed),
    }
}

/// Creates a token for `user` as of the instant `now`.
pub fn create_jwt_at(user: &User, secret: &str, now: i64) -> (res: Result<String, IssueError>)
    ensures
        issue_outcome(user@, secret@, now as int, res),
{
    let exp: i128 = now as i128 + TOKEN_LIFETIME as i128;
    if exp < 0 || exp > usize::MAX as i128 {
        return Err(IssueError::ClockOutOfRange);
    }
    match sign_claims(user.email.as_str(), user.role.as_str(), now, exp as usize, secret) {
        Ok(token) => Ok(token),
        Err(fault) => Err(IssueError::Signing { detail: fault_text(&fault) }),
    }
}

/// Creates a token for `user` that expires `TOKEN_LIFETIME` seconds from now.
pub fn create_jwt(user: &User, secret: &str) -> (res: Result<String, IssueError>)
    ensures
        exists|now: int| is_clock_instant(now) && issue_outcome(user@, secret@, now, res),
{
    create_jwt_at(user, secret, unix_time())
}

/// Validates `token` as of the instant `now` and returns its claims.
pub fn validate_jwt_at(token: &str, secret: &str, now: i64) -> (res: Result<Claims, TokenError>)
    ensures
        validation_outcome(token@, secret@, now as int, res),
{
    match open_token(token, secret) {
        Err(OpenFailure::SignatureMismatch) => Err(TokenError::BadSignature),
        Err(OpenFailure::Unreadable) => Err(TokenError::Malformed),
        Ok(raw) => claims_from(raw, now),
    }
}

/// Validates `token` as of now and returns its claims.
pub fn validate_jwt(token: &str, secret: &str) -> (res: Result<Claims, TokenError>)
    ensures
        exists|now: int| is_clock_instant(now) && validation_outcome(token@, secret@, now, res),
{
    validate_jwt_at(token, secret, unix_time())
}

/// A token that was issued for an account validates, from the instant it was
/// issued until it expires, to a claim that carries the account's login name
/// and role.
pub proof fn lemma_issued_token_validates(
    user: UserView,
    secret: Seq<char>,
    now: int,
    token: String,
    at: int,
)
    requires
        issue_outcome(user, secret, now, Ok(token)),
        at < expiry(now),
    ensures
        validated(token@, secret, at) == Ok::<ClaimsView, TokenError>(
            ClaimsView { sub: user.email, role: user.role, exp: expiry(now) as nat },
        ),
{
}

/// A token that was issued at one instant is expired at every instant from
/// `TOKEN_LIFETIME` seconds later on.
pub proof fn lemma_issued_token_expires(
    user: UserView,
    secret: Seq<char>,
    now: int,
    token: String,
    at: int,
)
    requires
        issue_outcome(user, secret, now, Ok(token)),
        at >= expiry(now),
    ensures
        validated(token@, secret, at) == Err::<ClaimsView, TokenError>(TokenError::Expired),
{
}

/// Two tokens issued for one account at different instants are never equal.
pub proof fn lemma_tokens_differ_by_instant(
    user: UserView,
    secret: Seq<char>,
    first: int,
    second: int,
    first_token: String,
    second_token: String,
)
    requires
        issue_outcome(user, secret, first, Ok(first_token)),
        issue_outcome(user, secret, second, Ok(second_token)),
        first != second,
    ensures
        first_token@ != second_token@,
{
    let at = if first < second {
        first
    } else {
        second
    };
    lemma_issued_token_validates(user, secret, first, first_token, at);
    lemma_issued_token_validates(user, secret, second, second_token, at);
}

/// Whether a token is accepted depends on the instant only through its
/// expiration: a token that yields a claim at one instant yields the same
/// claim at every instant before the claim's expiration, and is expired at
/// every instant from the expiration on.
pub proof fn lemma_valid_until_expiry(token: Seq<char>, secret: Seq<char>, once: int, now: int)
    requires
        validated(token, secret, once) is Ok,
    ensures
        now < validated(token, secret, once)->Ok_0.exp ==> validated(token, secret, now)
            == validated(token, secret, once),
        now >= validated(token, secret, once)->Ok_0.exp ==> validated(token, secret, now) == Err::<
            ClaimsView,
            TokenError,
        >(TokenError::Expired),
{
}

/// A token that is rejected for its shape or its signature is rejected so at
/// every instant.
pub proof fn lemma_rejection_is_timeless(token: Seq<char>, secret: Seq<char>, once: int, now: int)
    requires
        validated(token, secret, once) is Err,
        validated(token, secret, once) != Err::<ClaimsView, TokenError>(TokenError::Expired),
    ensures
        validated(token, secret, now) == validated(token, secret, once),
{
}

} // verus!
