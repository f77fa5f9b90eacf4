//! Interpreting login responses.

use vstd::prelude::*;

use crate::error::ApiError;
use crate::token::{Token, TokenStorage};

verus! {

/// Login details: the body of a login request.
#[derive(Debug, Clone)]
pub struct LoginArgs {
    email: String,
    password: String,
}

impl LoginArgs {
    /// The email or username to log in with.
    pub closed spec fn spec_email(&self) -> Seq<char> {
        self.email@
    }

    /// The password to log in with.
    pub closed spec fn spec_password(&self) -> Seq<char> {
        self.password@
    }

    /// Creates new login details with the given username and password
    /// (either an email or a username works).
    pub fn new(email: String, password: String) -> (r: LoginArgs)
        ensures
            r.spec_email() == email@,
            r.spec_password() == password@,
    {
        LoginArgs { email, password }
    }

    /// The email, for building the request body.
    pub fn email(&self) -> (r: &str)
        ensures
            r@ == self.spec_email(),
    {
        self.email.as_str()
    }

    /// The password, for building the request body.
    pub fn password(&self) -> (r: &str)
        ensures
            r@ == self.spec_password(),
    {
        self.password.as_str()
    }
}

/// Login raw result, as carried by the response body.
#[derive(Debug, Clone, PartialEq, Eq)]
pub struct Response {
    /// The `ok` marker of the response; 1 on success.
    pub ok: i32,
    /// The token returned on success.
    pub token: Option<String>,
}

/// The result of a call to log in.
#[derive(Debug, Clone)]
pub struct LoggedIn {
    /// The token which can be used to make future authenticated API calls.
    pub token: Token,
}

impl LoggedIn {
    /// Interprets the raw login response: the `ok` marker must be 1 and the
    /// token must be present, and exactly then the call succeeds.
    pub fn from_raw(raw: Response) -> (r: Result<LoggedIn, ApiError>)
        ensures
            match r {
                Ok(li) => raw.ok == 1 && (raw.token matches Some(t) && li.token@ == t@),
                Err(e) => match e {
                    ApiError::NotOk(code) => raw.ok != 1 && code == raw.ok,
                    ApiError::MissingField(f) => raw.ok == 1 && raw.token is None && f@
                        == "token"@,
                },
            },
    {
        let Response { ok, token } = raw;
        if ok != 1 {
            return Err(ApiError::NotOk(ok));
        }
        match token {
            Some(token) => Ok(LoggedIn { token: Token::new(token) }),
            None => Err(ApiError::MissingField("token")),
        }
    }

    /// Stores the token into the given token storage.
    pub fn return_to(self, storage: &mut TokenStorage)
        ensures
            final(storage)@ == Some(self.token@),
    {
        storage.set(self.token);
    }
}

} // verus!
