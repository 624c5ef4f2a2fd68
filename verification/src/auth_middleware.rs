//! Access guard of the network entry point.
//!
//! A call passes four steps: the token is taken from the authorization
//! header, the token codec validates it, the resulting claim is attached to
//! the call, and control goes to the operation. A call that fails one of the
//! first three steps is rejected as unauthenticated and never reaches an
//! operation; a failure of the operation itself is reported as an internal
//! error, apart from any failure of the guard.

use crate::api_response::{ApiResponse, ApiResponseView, INTERNAL_ERROR, UNAUTHENTICATED};
use crate::auth::{
    Claims, ClaimsView, is_clock_instant, token_rejection, TokenError, unix_time,
    validate_jwt_at, validated,
};
use crate::text::{
    has_prefix_at, skip_trailing_whitespace, skip_whitespace, to_chars, trimmed,
};
use vstd::prelude::*;

verus! {

/// The scheme that precedes the token in an authorization header.
pub open spec fn bearer_prefix() -> Seq<char> {
    "Bearer "@
}

/// The token that an authorization header carries: the header is trimmed,
/// must begin with `Bearer ` in exactly this case, and what follows this one
/// prefix, trimmed again, is the token.
pub open spec fn bearer_value(header: Seq<char>) -> Option<Seq<char>> {
    let value = trimmed(header);
    if bearer_prefix().is_prefix_of(value) {
        Some(trimmed(value.skip(bearer_prefix().len() as int)))
    } else {
        None
    }
}

/// The reply that rejects a call as unauthenticated.
pub open spec fn rejection(body: Seq<char>) -> ApiResponseView {
    ApiResponseView { status_code: UNAUTHENTICATED as int, body }
}

/// What the guard makes of a call's authorization header, if it has one, at
/// the instant `now`: the claim to attach, or the reply that rejects the call.
pub open spec fn guarded(header: Option<Seq<char>>, secret: Seq<char>, now: int) -> Result<
    ClaimsView,
    ApiResponseView,
> {
    match header {
        None => Err(rejection("Unauthorized"@)),
        Some(value) => match bearer_value(value) {
            None => Err(rejection("Invalid token format"@)),
            Some(token) => match validated(token, secret, now) {
                Ok(claims) => Ok(claims),
                Err(_) => Err(rejection(token_rejection())),
            },
        },
    }
}

/// Whether `res` is what the guard owes for a header at the instant `now`.
pub open spec fn guard_outcome(
    header: Option<Seq<char>>,
    secret: Seq<char>,
    now: int,
    res: Result<Claims, ApiResponse>,
) -> bool {
    match guarded(header, secret, now) {
        Ok(claims) => res matches Ok(c) && c@ == claims,
        Err(reply) => res matches Err(r) && r@ == reply,
    }
}

/// The characters of an optional text.
pub open spec fn header_view(header: Option<&str>) -> Option<Seq<char>> {
    match header {
        Some(h) => Some(h@),
        None => None,
    }
}

/// The guard lets a call through only with the claim of a token that its
/// header carries and that is valid at that instant; every other call is
/// rejected as unauthenticated.
pub proof fn lemma_guard_passes_only_valid_tokens(
    header: Option<Seq<char>>,
    secret: Seq<char>,
    now: int,
)
    ensures
        match guarded(header, secret, now) {
            Ok(claims) => header matches Some(value) && bearer_value(value) matches Some(token)
                && validated(token, secret, now) == Ok::<ClaimsView, TokenError>(claims),
            Err(reply) => reply.status_code == UNAUTHENTICATED,
        },
{
}

/// The guard lets a call through exactly when the call has a header that,
/// trimmed, begins with the one prefix, and what follows that prefix,
/// trimmed, is a token that is valid at that instant.
pub proof fn lemma_guard_passes_iff_token_validates(
    header: Option<Seq<char>>,
    secret: Seq<char>,
    now: int,
)
    ensures
        guarded(header, secret, now) is Ok <==> ({
            &&& header matches Some(value)
            &&& bearer_prefix().is_prefix_of(trimmed(value))
            &&& validated(
                trimmed(trimmed(value).skip(bearer_prefix().len() as int)),
                secret,
                now,
            ) is Ok
        }),
{
}

/// A call without an authorization header is rejected as unauthenticated,
/// whatever the secret and the instant.
pub proof fn lemma_no_header_is_unauthenticated(secret: Seq<char>, now: int)
    ensures
        guarded(None, secret, now) == Err::<ClaimsView, ApiResponseView>(
            rejection("Unauthorized"@),
        ),
        rejection("Unauthorized"@).status_code == UNAUTHENTICATED,
{
}

/// Takes the token out of the value of an authorization header.
pub fn bearer_token<'a>(header: &'a str) -> (res: Option<&'a str>)
    ensures
        header_view(res) == bearer_value(header@),
{
    let chars = to_chars(header);
    let prefix = to_chars("Bearer ");
    proof {
        reveal_strlit("Bearer ");
    }
    let n = chars.len();
    let from = skip_whitespace(&chars, 0, n);
    let to = skip_trailing_whitespace(&chars, from, n);
    assert(chars@.subrange(0, n as int) == header@);
    assert(trimmed(header@) == chars@.subrange(from as int, to as int));
    if !has_prefix_at(&chars, from, to, &prefix) {
        return None;
    }
    assert(chars@.subrange(from as int, to as int).skip(7) == chars@.subrange(
        from as int + 7,
        to as int,
    ));
    let start = skip_whitespace(&chars, from + 7, to);
    let end = skip_trailing_whitespace(&chars, start, to);
    let token = header.substring_char(start, end);
    Some(token)
}

/// The reply that rejects a call as unauthenticated, with the given body.
fn reject(body: &str) -> (reply: ApiResponse)
    ensures
        reply.well_formed(),
        reply@ == rejection(body@),
{
    ApiResponse::with_text(UNAUTHENTICATED, body)
}

/// The guard's verdict once the token codec has spoken.
pub fn attach_claims(checked: Result<Claims, TokenError>) -> (res: Result<Claims, ApiResponse>)
    ensures
        match checked {
            Ok(claims) => res matches Ok(c) && c == claims,
            Err(_) => res matches Err(r) && r@ == rejection(token_rejection()),
        },
{
    match checked {
        Ok(claims) => Ok(claims),
        Err(e) => Err(reject(e.boundary_message())),
    }
}

/// Runs the guard on a call's authorization header, if it has one, as of the
/// instant `now`.
pub fn check_auth_middleware_at(header: Option<&str>, secret: &str, now: i64) -> (res: Result<
    Claims,
    ApiResponse,
>)
    ensures
        guard_outcome(header_view(header), secret@, now as int, res),
{
    match header {
        None => Err(reject("Unauthorized")),
        Some(value) => match bearer_token(value) {
            None => Err(reject("Invalid token format")),
            Some(token) => attach_claims(validate_jwt_at(token, secret, now)),
        },
    }
}

/// Runs the guard on a call's authorization header, if it has one.
pub fn check_auth_middleware(header: Option<&str>, secret: &str) -> (res: Result<
    Claims,
    ApiResponse,
>)
    ensures
        exists|now: int|
            is_clock_instant(now) && guard_outcome(header_view(header), secret@, now, res),
{
    check_auth_middleware_at(header, secret, unix_time())
}

/// The guard's reply where the operation it let through failed: an internal
/// error that carries the operation's own account of the failure.
pub fn downstream_failure(detail: String) -> (reply: ApiResponse)
    ensures
        reply.well_formed(),
        reply@ == (ApiResponseView { status_code: INTERNAL_ERROR as int, body: detail@ }),
{
    ApiResponse::new(INTERNAL_ERROR, detail)
}

} // verus!
