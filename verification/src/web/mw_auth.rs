//! Identity resolution and the guard in front of protected routes.
//!
//! The resolver runs on every request and never rejects it: it only records
//! who the caller is, or why that is not known. The guard runs on protected
//! routes and turns a missing identity into a rejection.

use vstd::prelude::*;
use crate::ctx::Ctx;
use crate::error::{ClientError, Error, STATUS_FORBIDDEN};
use crate::web::token::{
    decimal_value,
    lemma_parsed_token_has_shape,
    lemma_shaped_token_parses,
    parse_token,
    spec_parse_token,
    token_shape,
};

verus! {

/// What the resolver hands on: the identity or the reason for its absence,
/// and whether the session cookie is to be removed from the client.
#[derive(Clone, Copy, Debug, PartialEq, Eq)]
pub struct CtxResolution {
    pub result_ctx: Result<Ctx, Error>,
    pub remove_cookie: bool,
}

/// The text of a session cookie, if the request had one.
pub open spec fn cookie_text(auth_token: Option<String>) -> Option<Seq<char>> {
    match auth_token {
        Some(token) => Some(token@),
        None => None,
    }
}

/// The user that a session cookie identifies. No cookie is
/// [`Error::AuthTokenCookieNoFound`]; a cookie that is no token is
/// [`Error::AuthTokenInvalid`]. The two trailing fields of the token are not
/// looked at.
pub open spec fn resolved_user(auth_token: Option<Seq<char>>) -> Result<u64, Error> {
    match auth_token {
        None => Err(Error::AuthTokenCookieNoFound),
        Some(token) => match spec_parse_token(token) {
            Some((user_id, _, _)) => Ok(user_id),
            None => Err(Error::AuthTokenInvalid),
        },
    }
}

/// A cookie that was sent but does not resolve is removed, so that the
/// client authenticates anew. A missing cookie leaves nothing to remove.
pub open spec fn removes_cookie(resolved: Result<u64, Error>) -> bool {
    resolved is Err && resolved != Err::<u64, Error>(Error::AuthTokenCookieNoFound)
}

/// What a handler receives for the resolver's record: the record itself, or
/// [`Error::AuthCtxNotFound`] if the resolver never ran.
pub open spec fn extracted(resolved: Option<Result<Ctx, Error>>) -> Result<Ctx, Error> {
    match resolved {
        Some(result_ctx) => result_ctx,
        None => Err(Error::AuthCtxNotFound),
    }
}

/// What the guard answers: go ahead, or the reason for the rejection.
pub open spec fn guard(ctx: Result<Ctx, Error>) -> Result<(), Error> {
    match ctx {
        Ok(_) => Ok(()),
        Err(e) => Err(e),
    }
}

/// Whether `result_ctx` is the resolver's record for a request with the
/// given session cookie.
pub open spec fn is_resolution_of(
    result_ctx: Result<Ctx, Error>,
    auth_token: Option<Seq<char>>,
) -> bool {
    match resolved_user(auth_token) {
        Ok(user_id) => result_ctx matches Ok(ctx) && ctx.user_id() == user_id,
        Err(e) => result_ctx == Err::<Ctx, Error>(e),
    }
}

/// Resolves the caller's identity from the value of the session cookie, and
/// says whether the cookie is to be removed.
pub fn mw_ctx_resolver(auth_token: Option<String>) -> (resolution: CtxResolution)
    ensures
        is_resolution_of(resolution.result_ctx, cookie_text(auth_token)),
        resolution.remove_cookie == removes_cookie(resolved_user(cookie_text(auth_token))),
{
    let result_ctx = match auth_token {
        None => Err(Error::AuthTokenCookieNoFound),
        Some(token) => match parse_token(token) {
            Ok((user_id, _exp, _sign)) => Ok(Ctx::new(user_id)),
            Err(e) => Err(e),
        },
    };
    let remove_cookie = match result_ctx {
        Ok(_) => false,
        Err(Error::AuthTokenCookieNoFound) => false,
        Err(_) => true,
    };
    CtxResolution { result_ctx, remove_cookie }
}

/// Lets a request through to a protected route only if the caller is known.
pub fn mw_require_auth(ctx: Result<Ctx, Error>) -> (r: Result<(), Error>)
    ensures
        r == guard(ctx),
{
    match ctx {
        Ok(_) => Ok(()),
        Err(e) => Err(e),
    }
}

impl Ctx {
    /// The identity that a handler works with, from the resolver's record.
    pub fn from_request_parts(resolved: Option<Result<Ctx, Error>>) -> (r: Result<Ctx, Error>)
        ensures
            r == extracted(resolved),
    {
        match resolved {
            Some(result_ctx) => result_ctx,
            None => Err(Error::AuthCtxNotFound),
        }
    }
}

/// A token resolves to the user that its digits name, whatever its expiry
/// and signature fields hold, and the cookie stays.
pub proof fn lemma_token_resolves_to_its_user(
    token: Seq<char>,
    digits: Seq<char>,
    exp: Seq<char>,
    sign: Seq<char>,
    rest: Seq<char>,
)
    requires
        token_shape(token, digits, exp, sign, rest),
        decimal_value(digits) <= u64::MAX,
    ensures
        resolved_user(Some(token)) == Ok::<u64, Error>(decimal_value(digits) as u64),
        !removes_cookie(resolved_user(Some(token))),
{
    lemma_shaped_token_parses(token, digits, exp, sign, rest);
}

/// A cookie that has not the shape of a token, or names a user beyond 64
/// bits, is invalid and is removed.
pub proof fn lemma_other_cookie_is_invalid(cookie: Seq<char>)
    requires
        forall|digits: Seq<char>, exp: Seq<char>, sign: Seq<char>, rest: Seq<char>|
            !(#[trigger] token_shape(cookie, digits, exp, sign, rest) && decimal_value(digits)
                <= u64::MAX),
    ensures
        resolved_user(Some(cookie)) == Err::<u64, Error>(Error::AuthTokenInvalid),
        removes_cookie(resolved_user(Some(cookie))),
{
    if spec_parse_token(cookie) is Some {
        lemma_parsed_token_has_shape(cookie);
    }
}

/// The guard fails closed. Whatever the session cookie holds, the resolver's
/// record passes the guard only if the cookie resolves to a user, and that
/// user is then the identity that a handler receives. Where the cookie does
/// not resolve, the guard rejects the request with the resolver's error, and
/// the client is told `NO_AUTH` with status 403. A request that reaches the
/// guard without any record is rejected in the same way.
pub proof fn lemma_guard_fails_closed(auth_token: Option<Seq<char>>, result_ctx: Result<Ctx, Error>)
    requires
        is_resolution_of(result_ctx, auth_token),
    ensures
        match guard(extracted(Some(result_ctx))) {
            Ok(_) => {
                &&& extracted(Some(result_ctx)) matches Ok(ctx)
                &&& resolved_user(auth_token) == Ok::<u64, Error>(ctx.user_id())
            },
            Err(e) => {
                &&& resolved_user(auth_token) == Err::<u64, Error>(e)
                &&& e.client_status_and_error_spec() == (STATUS_FORBIDDEN, ClientError::NO_AUTH)
            },
        },
        guard(extracted(None)) matches Err(e) && e.client_status_and_error_spec() == (
            STATUS_FORBIDDEN,
            ClientError::NO_AUTH,
        ),
{
}

} // verus!
