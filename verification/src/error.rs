//! Internal errors and their client-facing projection.

use vstd::prelude::*;

verus! {

/// HTTP status sent with [`ClientError::LOGIN_FAIL`].
pub const STATUS_UNAUTHORIZED: u16 = 401;

/// HTTP status sent with [`ClientError::NO_AUTH`].
pub const STATUS_FORBIDDEN: u16 = 403;

/// HTTP status sent with [`ClientError::INVALID_PARAMS`].
pub const STATUS_BAD_REQUEST: u16 = 400;

/// HTTP status sent with [`ClientError::SERVICE_ERROR`].
pub const STATUS_INTERNAL_SERVER_ERROR: u16 = 500;

/// What went wrong while serving a request. This is server-side detail: it
/// is logged, never sent to the client.
#[derive(Clone, Copy, Debug, PartialEq, Eq, Structural)]
pub enum Error {
    LoginFailed,
    AuthCtxNotFound,
    AuthTokenCookieNoFound,
    AuthTokenInvalid,
    TicketDeleteIdNotFound { id: u64 },
}

/// The coarse category of failure that a client is told about.
#[derive(Clone, Copy, Debug, PartialEq, Eq, Structural)]
#[allow(non_camel_case_types)]
pub enum ClientError {
    LOGIN_FAIL,
    NO_AUTH,
    INVALID_PARAMS,
    SERVICE_ERROR,
}

impl Error {
    /// Whether the error says that the caller is not authenticated.
    pub open spec fn is_auth_failure(&self) -> bool {
        *self is AuthCtxNotFound || *self is AuthTokenCookieNoFound || *self is AuthTokenInvalid
    }

    /// The HTTP status and the client-facing category of an internal error:
    /// a failed login is 401 `LOGIN_FAIL`, a missing or invalid identity is
    /// 403 `NO_AUTH`, an unknown ticket id is 400 `INVALID_PARAMS`, and
    /// anything else is 500 `SERVICE_ERROR`.
    pub open spec fn client_status_and_error_spec(&self) -> (u16, ClientError) {
        if *self is LoginFailed {
            (STATUS_UNAUTHORIZED, ClientError::LOGIN_FAIL)
        } else if self.is_auth_failure() {
            (STATUS_FORBIDDEN, ClientError::NO_AUTH)
        } else if *self is TicketDeleteIdNotFound {
            (STATUS_BAD_REQUEST, ClientError::INVALID_PARAMS)
        } else {
            (STATUS_INTERNAL_SERVER_ERROR, ClientError::SERVICE_ERROR)
        }
    }

    /// The name of each variant, as it appears in server-side logs.
    pub open spec fn name(&self) -> Seq<char> {
        match *self {
            Error::LoginFailed => "LoginFailed"@,
            Error::AuthCtxNotFound => "AuthCtxNotFound"@,
            Error::AuthTokenCookieNoFound => "AuthTokenCookieNoFound"@,
            Error::AuthTokenInvalid => "AuthTokenInvalid"@,
            Error::TicketDeleteIdNotFound { .. } => "TicketDeleteIdNotFound"@,
        }
    }

    pub fn as_ref(&self) -> (r: &'static str)
        ensures
            r@ == self.name(),
    {
        match self {
            Error::LoginFailed => "LoginFailed",
            Error::AuthCtxNotFound => "AuthCtxNotFound",
            Error::AuthTokenCookieNoFound => "AuthTokenCookieNoFound",
            Error::AuthTokenInvalid => "AuthTokenInvalid",
            Error::TicketDeleteIdNotFound { .. } => "TicketDeleteIdNotFound",
        }
    }

    #[verifier::when_used_as_spec(client_status_and_error_spec)]
    pub fn client_status_and_error(&self) -> (r: (u16, ClientError))
        ensures
            r == self.client_status_and_error_spec(),
    {
        match self {
            Error::LoginFailed => (STATUS_UNAUTHORIZED, ClientError::LOGIN_FAIL),
            Error::AuthCtxNotFound | Error::AuthTokenCookieNoFound | Error::AuthTokenInvalid => (
                STATUS_FORBIDDEN,
                ClientError::NO_AUTH,
            ),
            Error::TicketDeleteIdNotFound { .. } => (
                STATUS_BAD_REQUEST,
                ClientError::INVALID_PARAMS,
            ),
        }
    }
}

impl ClientError {
    /// The name under which each category is reported to the client.
    pub open spec fn name(&self) -> Seq<char> {
        match *self {
            ClientError::LOGIN_FAIL => "LOGIN_FAIL"@,
            ClientError::NO_AUTH => "NO_AUTH"@,
            ClientError::INVALID_PARAMS => "INVALID_PARAMS"@,
            ClientError::SERVICE_ERROR => "SERVICE_ERROR"@,
        }
    }

    pub fn as_ref(&self) -> (r: &'static str)
        ensures
            r@ == self.name(),
    {
        match self {
            ClientError::LOGIN_FAIL => "LOGIN_FAIL",
            ClientError::NO_AUTH => "NO_AUTH",
            ClientError::INVALID_PARAMS => "INVALID_PARAMS",
            ClientError::SERVICE_ERROR => "SERVICE_ERROR",
        }
    }
}

} // verus!
