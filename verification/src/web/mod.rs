//! What is decided for a request: who the caller is, whether a protected
//! route may be entered, what the pages and the login answer, and what a
//! client is shown of a failure.

use vstd::prelude::*;

pub mod mw_auth;
pub mod mw_res_map;
pub mod routes_hello;
pub mod routes_login;
pub mod token;

verus! {

/// Name of the cookie that carries the session token.
pub const AUTH_TOKEN: &'static str = "auth-token";

} // verus!
