//! Request and response shapes of the setup, login and logout routes.
use vstd::prelude::*;

verus! {

/// The first-admin setup form.
#[derive(Debug, Clone)]
pub struct SetupRequest {
    pub username: String,
    pub password: String,
    pub password_confirm: String,
}

/// The login form.
#[derive(Debug, Clone)]
pub struct LoginRequest {
    pub username: String,
    pub password: String,
}

/// A successful login: the session token.
#[derive(Debug, Clone)]
pub struct LoginResp {
    pub token: String,
}

/// Whether the first admin still has to be created.
#[derive(Debug, Clone, Copy)]
pub struct SetupStatusResp {
    pub needs_setup: bool,
}

} // verus!
