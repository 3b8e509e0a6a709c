//! Reading the bearer token of a request and the claims it carries.

use crate::errors::{AppError, AppErrorView};
use crate::models::Claims;
use crate::text::{after_prefix, starts_with};
use vstd::prelude::*;

verus! {

/// How long an access token stays valid: one day, in seconds.
pub const TOKEN_LIFETIME_SECS: usize = 86400;

pub open spec fn bearer_prefix() -> Seq<char> {
    "Bearer "@
}

pub open spec fn missing_header_message() -> Seq<char> {
    "Missing Authorization Header"@
}

pub open spec fn bad_header_message() -> Seq<char> {
    "Invalid Header Format"@
}

pub open spec fn bad_token_message() -> Seq<char> {
    "Invalid or Expired Token"@
}

/// The token of an `Authorization` header value: what follows the
/// `"Bearer "` prefix. A request without a readable header, or whose
/// header does not start with that prefix, is refused as unauthorized.
pub fn bearer_token(header: Option<&str>) -> (res: Result<String, AppError>)
    ensures
        header is None ==> (res matches Err(e) && e@ == AppErrorView::Unauthorized(
            missing_header_message(),
        )),
        header matches Some(h) ==> (!starts_with(h@, bearer_prefix()) ==> (res matches Err(e)
            && e@ == AppErrorView::Unauthorized(bad_header_message()))),
        header matches Some(h) ==> (starts_with(h@, bearer_prefix()) ==> (res matches Ok(t) && t@
            == h@.skip(bearer_prefix().len() as int))),
{
    match header {
        None => Err(AppError::Unauthorized("Missing Authorization Header".to_owned())),
        Some(value) => match after_prefix(value, "Bearer ") {
            Some(token) => Ok(token),
            None => Err(AppError::Unauthorized("Invalid Header Format".to_owned())),
        },
    }
}

/// The claims of a request, given what decoding and checking its token
/// gave: `None` where the token was forged, malformed or expired.
pub fn token_claims(decoded: Option<Claims>) -> (res: Result<Claims, AppError>)
    ensures
        decoded matches Some(c) ==> res == Ok::<Claims, AppError>(c),
        decoded is None ==> (res matches Err(e) && e@ == AppErrorView::Unauthorized(
            bad_token_message(),
        )),
{
    match decoded {
        Some(claims) => Ok(claims),
        None => Err(AppError::Unauthorized("Invalid or Expired Token".to_owned())),
    }
}

impl Claims {
    /// The claims of a token issued to `user_id` at `now_secs` (seconds
    /// since the UNIX epoch): it expires one day later.
    pub fn for_login(user_id: i32, now_secs: u64) -> (res: Claims)
        requires
            now_secs + TOKEN_LIFETIME_SECS <= usize::MAX,
        ensures
            res.user_id == user_id,
            res.exp == now_secs + TOKEN_LIFETIME_SECS,
    {
        Claims { user_id, exp: now_secs as usize + TOKEN_LIFETIME_SECS }
    }
}

/// A header built as `"Bearer "` followed by a token reads back as that
/// token: the bearer format and its reading undo each other.
pub proof fn lemma_bearer_header_round_trip(token: Seq<char>)
    ensures
        starts_with(bearer_prefix() + token, bearer_prefix()),
        (bearer_prefix() + token).skip(bearer_prefix().len() as int) == token,
{
    let h = bearer_prefix() + token;
    assert(h.take(bearer_prefix().len() as int) =~= bearer_prefix());
    assert(h.skip(bearer_prefix().len() as int) =~= token);
}

} // verus!
