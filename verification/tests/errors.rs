use ticket_service::error::{
    STATUS_BAD_REQUEST, STATUS_FORBIDDEN, STATUS_INTERNAL_SERVER_ERROR, STATUS_UNAUTHORIZED,
};
use ticket_service::{ClientError, Error};

#[test]
fn login_failure_is_unauthorized() {
    assert_eq!(Error::LoginFailed.client_status_and_error(), (401, ClientError::LOGIN_FAIL));
}

#[test]
fn auth_failures_are_forbidden() {
    for error in [Error::AuthCtxNotFound, Error::AuthTokenCookieNoFound, Error::AuthTokenInvalid] {
        assert_eq!(error.client_status_and_error(), (403, ClientError::NO_AUTH), "{error:?}");
    }
}

#[test]
fn unknown_ticket_is_a_bad_request() {
    for id in [0, 1, 77, u64::MAX] {
        assert_eq!(
            Error::TicketDeleteIdNotFound { id }.client_status_and_error(),
            (400, ClientError::INVALID_PARAMS)
        );
    }
}

#[test]
fn status_codes_have_their_http_values() {
    assert_eq!(STATUS_UNAUTHORIZED, 401);
    assert_eq!(STATUS_FORBIDDEN, 403);
    assert_eq!(STATUS_BAD_REQUEST, 400);
    assert_eq!(STATUS_INTERNAL_SERVER_ERROR, 500);
}

#[test]
fn client_errors_are_named_as_the_client_sees_them() {
    assert_eq!(ClientError::LOGIN_FAIL.as_ref(), "LOGIN_FAIL");
    assert_eq!(ClientError::NO_AUTH.as_ref(), "NO_AUTH");
    assert_eq!(ClientError::INVALID_PARAMS.as_ref(), "INVALID_PARAMS");
    assert_eq!(ClientError::SERVICE_ERROR.as_ref(), "SERVICE_ERROR");
}

#[test]
fn errors_are_named_by_their_variant() {
    assert_eq!(Error::LoginFailed.as_ref(), "LoginFailed");
    assert_eq!(Error::AuthCtxNotFound.as_ref(), "AuthCtxNotFound");
    assert_eq!(Error::AuthTokenCookieNoFound.as_ref(), "AuthTokenCookieNoFound");
    assert_eq!(Error::AuthTokenInvalid.as_ref(), "AuthTokenInvalid");
    assert_eq!(Error::TicketDeleteIdNotFound { id: 3 }.as_ref(), "TicketDeleteIdNotFound");
}
