//! What each endpoint does with a request.

pub mod auth;
pub mod signup;
pub mod user;
