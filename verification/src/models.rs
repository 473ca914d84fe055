//! Data carried between a request and its response.

pub mod templates;
pub mod user_form_models;
