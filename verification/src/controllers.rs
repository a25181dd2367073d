//! The decisions that the request handlers make.
pub mod bet;
pub mod site_metadata;
pub mod user_session;
