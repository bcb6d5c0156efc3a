//! Authentication and authorization for a user-facing backend: password
//! hashing, signed bearer tokens, request authentication and role checks,
//! with the request and response shapes of the account endpoints.

pub mod clock;
pub mod config;
pub mod controllers;
pub mod dtos;
pub mod email;
pub mod error;
pub mod middleware;
pub mod models;
pub mod password;
pub mod routes;
pub mod store;
pub mod text;
pub mod token;
