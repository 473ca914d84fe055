//! Account registration for a small server-rendered site: the form rules,
//! the signup decisions, the page-view counter and the route table, each with
//! a proved contract.

pub mod handlers;
pub mod models;
pub mod routes;
pub mod state;
pub mod util;
