//! Request-handling core of the gamba bookmaker tracker: authentication
//! decisions, the cookie session, error responses, configuration and the
//! small pieces of routing logic, each with a contract and its proof.
use vstd::prelude::*;

pub mod auth;
pub mod config;
pub mod controllers;
pub mod database;
pub mod errors;
pub mod layers;
pub mod middleware;
pub mod oauth;
pub mod router;
pub mod session;
pub mod text;

verus! {

/// Used for setting different values depending on whether the app is being run in production,
/// in development, or for testing.
#[derive(PartialEq, Eq, Clone, Copy, Debug, Structural)]
pub enum Env {
    Development,
    Test,
    Production,
}

} // verus!
