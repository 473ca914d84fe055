//! What each request is answered with.

pub mod auth;
pub mod public;
