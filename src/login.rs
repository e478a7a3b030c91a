use vstd::prelude::*;

use crate::message::Identifier;

verus! {

/// The credentials sent to the login endpoint.
#[derive(Debug)]
pub struct LoginRequest {
    pub username: String,
    pub password: String,
}

/// The login endpoint's answer.
#[derive(Debug)]
pub struct LoginResponse {
    pub user_id: Identifier,
    pub token: String,
}

/// An authenticated user: who they are and the bearer token of their
/// requests and connections.
#[derive(Debug)]
pub struct Session {
    pub user_id: Identifier,
    pub token: String,
}

/// What the login form holds.
#[derive(Debug)]
pub struct LoginForm {
    pub username: String,
    pub password: String,
}

impl LoginForm {
    pub fn new() -> (r: LoginForm)
        ensures
            r.username@.len() == 0,
            r.password@.len() == 0,
    {
        LoginForm { username: String::new(), password: String::new() }
    }

    pub fn username_changed(&mut self, username: String)
        ensures
            final(self).username == username,
            final(self).password == old(self).password,
    {
        self.username = username;
    }

    pub fn password_changed(&mut self, password: String)
        ensures
            final(self).password == password,
            final(self).username == old(self).username,
    {
        self.password = password;
    }

    /// The request that submitting the form sends.
    pub fn request(&self) -> (r: LoginRequest)
        ensures
            r.username == self.username,
            r.password == self.password,
    {
        LoginRequest { username: self.username.clone(), password: self.password.clone() }
    }
}

/// The session that a successful login opens.
pub fn session_from_login(response: LoginResponse) -> (r: Session)
    ensures
        r.user_id == response.user_id,
        r.token == response.token,
{
    Session { user_id: response.user_id, token: response.token }
}

} // verus!
