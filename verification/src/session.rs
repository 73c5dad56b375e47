//! Login-flow discovery value types.

use crate::str_eq;
use vstd::prelude::*;

verus! {

/// An authentication mechanism a homeserver may offer for login.
#[derive(Debug, Clone, Copy, PartialEq, Eq, Structural)]
pub enum LoginType {
    /// Login with a password; wire token `m.login.password`.
    Password,
    /// Login with a short-lived token; wire token `m.login.token`.
    Token,
}

/// The wire token of a login type.
pub open spec fn spec_login_type_token(t: LoginType) -> Seq<char> {
    match t {
        LoginType::Password => "m.login.password"@,
        LoginType::Token => "m.login.token"@,
    }
}

/// The login type whose wire token is `s`, if any.
pub open spec fn spec_token_login_type(s: Seq<char>) -> Option<LoginType> {
    if s == "m.login.password"@ {
        Some(LoginType::Password)
    } else if s == "m.login.token"@ {
        Some(LoginType::Token)
    } else {
        None
    }
}

impl LoginType {
    /// The wire token of this login type.
    pub fn token(&self) -> (r: &'static str)
        ensures
            r@ == spec_login_type_token(*self),
    {
        match self {
            LoginType::Password => "m.login.password",
            LoginType::Token => "m.login.token",
        }
    }

    /// Parses a wire token into a login type; unrecognized tokens yield
    /// `None`.
    pub fn from_token(s: &str) -> (r: Option<LoginType>)
        ensures
            r == spec_token_login_type(s@),
    {
        if str_eq(s, "m.login.password") {
            Some(LoginType::Password)
        } else if str_eq(s, "m.login.token") {
            Some(LoginType::Token)
        } else {
            None
        }
    }
}

/// A supported login type in a homeserver.
#[derive(Debug, Clone, Copy, PartialEq, Eq, Structural)]
pub struct LoginFlow {
    /// The login type; wire key `type`.
    pub login_type: LoginType,
}

} // verus!
