use vstd::prelude::*;

verus! {

/// A row of the `users` table.
#[derive(Debug, Clone, PartialEq, Eq)]
pub struct User {
    pub id: i32,
    pub username: String,
    pub password_hash: String,
}

/// The claims carried by a session token: the user's id and the expiry
/// time, in seconds since the Unix epoch.
#[derive(Debug, Clone, PartialEq, Eq)]
pub struct Claims {
    pub sub: i32,
    pub exp: usize,
}

/// The user on whose behalf an authenticated request runs.
#[derive(Debug, Clone, PartialEq, Eq)]
pub struct AuthUser {
    pub id: i32,
}

/// The sign-in form.
#[derive(Debug, Clone, PartialEq, Eq)]
pub struct LoginPayload {
    pub username: String,
    pub password: String,
}

/// The sign-up form.
#[derive(Debug, Clone, PartialEq, Eq)]
pub struct RegisterPayload {
    pub username: String,
    pub password: String,
}

/// What the price refresh reads of an investment: its id and the address
/// of the token whose price it follows, if any.
#[derive(Debug, Clone, PartialEq, Eq)]
pub struct InvestmentAddress {
    pub id: i32,
    pub token_address: Option<String>,
}

} // verus!
