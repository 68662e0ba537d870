//! Login: the one account of the service, and the session token it gets.
//!
//! Credentials are compared, nothing more. The token names the user; its
//! expiry and signature fields are fixed words that nothing checks.

use vstd::prelude::*;
use crate::error::Error;
use crate::web::mw_auth::resolved_user;
use crate::web::token::{decimal_value, digits_end, last_dot, line_end, token_prefix};

verus! {

/// The user id of the one account.
pub const LOGIN_USER_ID: u64 = 1;

pub open spec fn login_username() -> Seq<char> {
    "admin"@
}

pub open spec fn login_password() -> Seq<char> {
    "Secret"@
}

/// The session token of the one account.
pub open spec fn login_token() -> Seq<char> {
    "user-1.exp.sign"@
}

/// The token that login hands out resolves to the account's user id.
pub proof fn lemma_login_token_resolves()
    ensures
        resolved_user(Some(login_token())) == Ok::<u64, Error>(LOGIN_USER_ID),
{
    reveal_strlit("user-1.exp.sign");
    let token = login_token();
    reveal_with_fuel(digits_end, 3);
    reveal_with_fuel(line_end, 10);
    reveal_with_fuel(last_dot, 8);
    reveal_with_fuel(decimal_value, 3);
    assert(token.take(5) =~= token_prefix());
}

/// Checks the credentials and hands out the session token.
///
/// Fails with [`Error::LoginFailed`] exactly when the user name or the
/// password is not that of the account.
pub fn api_login(username: &str, password: &str) -> (r: Result<String, Error>)
    ensures
        match r {
            Ok(token) => {
                &&& username@ == login_username()
                &&& password@ == login_password()
                &&& token@ == login_token()
                &&& resolved_user(Some(token@)) == Ok::<u64, Error>(LOGIN_USER_ID)
            },
            Err(e) => {
                &&& e == Error::LoginFailed
                &&& username@ != login_username() || password@ != login_password()
            },
        },
{
    let username_matches = username.to_owned() == "admin".to_owned();
    let password_matches = password.to_owned() == "Secret".to_owned();
    if username_matches && password_matches {
        proof {
            lemma_login_token_resolves();
        }
        Ok("user-1.exp.sign".to_owned())
    } else {
        Err(Error::LoginFailed)
    }
}

} // verus!
