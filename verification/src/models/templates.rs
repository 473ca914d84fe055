//! The values each page is rendered from.

use crate::models::user_form_models::text_of;
use vstd::prelude::*;

verus! {

pub struct HomeTemplate {
    pub view_count: u64,
}

pub struct NotFound {}

pub struct ServerError {}

pub struct AboutTemplate {
    pub view_count: u64,
}

pub struct ContactTemplate {
    pub view_count: u64,
}

/// The signup form: the counter, the two echoed values and a message for
/// each field that has one. Neither password has a place in it.
pub struct SignupTemplate {
    pub view_count: u64,
    pub email_value: String,
    pub email_error: Option<String>,
    pub password_error: Option<String>,
    pub confirm_password_error: Option<String>,
    pub username_error: Option<String>,
    pub username_value: String,
}

pub struct LoginTemplate {
    pub view_count: u64,
    pub email_error: Option<String>,
    pub password_error: Option<String>,
}

/// A `SignupTemplate` as plain text.
pub struct SignupPage {
    pub view_count: u64,
    pub email_value: Seq<char>,
    pub email_error: Option<Seq<char>>,
    pub password_error: Option<Seq<char>>,
    pub confirm_password_error: Option<Seq<char>>,
    pub username_error: Option<Seq<char>>,
    pub username_value: Seq<char>,
}

/// A `LoginTemplate` as plain text.
pub struct LoginPage {
    pub view_count: u64,
    pub email_error: Option<Seq<char>>,
    pub password_error: Option<Seq<char>>,
}

impl View for SignupTemplate {
    type V = SignupPage;

    open spec fn view(&self) -> SignupPage {
        SignupPage {
            view_count: self.view_count,
            email_value: self.email_value@,
            email_error: text_of(self.email_error),
            password_error: text_of(self.password_error),
            confirm_password_error: text_of(self.confirm_password_error),
            username_error: text_of(self.username_error),
            username_value: self.username_value@,
        }
    }
}

impl View for LoginTemplate {
    type V = LoginPage;

    open spec fn view(&self) -> LoginPage {
        LoginPage {
            view_count: self.view_count,
            email_error: text_of(self.email_error),
            password_error: text_of(self.password_error),
        }
    }
}

} // verus!
