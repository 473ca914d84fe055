//! The signup and login pages, and the decisions of a signup request.
//!
//! A signup request alternates between deciding and waiting for the user
//! store. `post_sign_up_handler` decides: it takes what has just happened and
//! says what to do next. Whoever holds the store performs that and comes back
//! with the next event.

use crate::models::templates::{LoginPage, LoginTemplate, SignupPage, SignupTemplate};
use crate::models::user_form_models::{
    mismatch_message, submission_valid, text_of, violations, AuthFormModel, FieldErrors,
    Submission,
};
use crate::state::AppState;
use crate::util::{
    plain_text, redirect_to, HtmlTemplate, Response, ResponseView, STATUS_INTERNAL_SERVER_ERROR,
};
use vstd::prelude::*;
use vstd::string::*;

verus! {

/// The number of characters of a password hash.
pub const HASH_CHARS: usize = 60;

/// `bcrypt::BcryptError`: why hashing failed. It is carried through unread.
#[verifier::external_type_specification]
#[verifier::external_body]
pub struct ExBcryptError(bcrypt::BcryptError);

/// `bcrypt::hash` at `bcrypt::DEFAULT_COST`. The salt is drawn at random, so
/// of the hash only its length is claimed: the formatted string always has
/// sixty characters.
#[verifier::external_body]
fn hash_at_default_cost(password: &str) -> (r: Result<String, bcrypt::BcryptError>)
    ensures
        r matches Ok(h) ==> h@.len() == HASH_CHARS,
{
    bcrypt::hash(password, bcrypt::DEFAULT_COST)
}

/// `Display` of `bcrypt::BcryptError`, through `format!`: the words for the
/// log. Nothing is claimed of them.
#[verifier::external_body]
fn failure_text(cause: &bcrypt::BcryptError) -> (text: String) {
    format!("{}", cause)
}

/// A row of the user store.
pub struct UserRecord {
    pub email: String,
    pub hashed_password: String,
    pub username: String,
}

/// A `UserRecord` as plain text.
pub struct UserRow {
    pub email: Seq<char>,
    pub hashed_password: Seq<char>,
    pub username: Seq<char>,
}

impl View for UserRecord {
    type V = UserRow;

    open spec fn view(&self) -> UserRow {
        UserRow {
            email: self.email@,
            hashed_password: self.hashed_password@,
            username: self.username@,
        }
    }
}

/// What has just happened to a signup request.
#[derive(Clone, Copy, Debug, PartialEq, Eq, Structural)]
pub enum SignupEvent {
    /// The form has arrived.
    Submitted,
    /// The store has said whether the email is taken.
    EmailLookedUp { found: bool },
    /// The store could not say whether the email is taken.
    LookupFailed,
    /// The store has taken the new row.
    Inserted,
    /// The store has refused the new row.
    InsertFailed,
}

/// What to do next for a signup request. The first two wait for the store;
/// the last two end the request.
pub enum SignupAction {
    /// Ask the store whether a row with exactly this email exists.
    FindEmail { email: String },
    /// Add this row to the store.
    Insert { record: UserRecord },
    /// Answer with the signup form.
    Render { page: HtmlTemplate<SignupTemplate> },
    /// Answer with this response. `cause`, where there is one, says for the
    /// log why hashing failed; the response never holds it.
    Reply { response: Response, cause: Option<String> },
}

/// A `SignupAction` as plain text.
pub enum SignupActionView {
    FindEmail { email: Seq<char> },
    Insert { record: UserRow },
    Render { page: SignupPage },
    Reply { response: ResponseView, cause: Option<Seq<char>> },
}

impl View for SignupAction {
    type V = SignupActionView;

    open spec fn view(&self) -> SignupActionView {
        match self {
            SignupAction::FindEmail { email } => SignupActionView::FindEmail { email: email@ },
            SignupAction::Insert { record } => SignupActionView::Insert { record: record@ },
            SignupAction::Render { page } => SignupActionView::Render { page: page.0@ },
            SignupAction::Reply { response, cause } => SignupActionView::Reply {
                response: response@,
                cause: text_of(*cause),
            },
        }
    }
}

pub open spec fn conflict_message() -> Seq<char> {
    "A user with this email already exists."@
}

pub open spec fn internal_error_message() -> Seq<char> {
    "Internal Server Error"@
}

pub open spec fn insert_failure_message() -> Seq<char> {
    "Could not create account."@
}

pub open spec fn unusable_hash_message() -> Seq<char> {
    "The password hash equals the password."@
}

pub open spec fn login_path() -> Seq<char> {
    "/login"@
}

pub open spec fn home_path() -> Seq<char> {
    "/"@
}

/// The signup form as first shown: nothing filled in, nothing to complain of.
pub open spec fn blank_signup_page(count: u64) -> SignupPage {
    SignupPage {
        view_count: count,
        email_value: Seq::empty(),
        email_error: None,
        password_error: None,
        confirm_password_error: None,
        username_error: None,
        username_value: Seq::empty(),
    }
}

/// The signup form after a rejected submission: email and username as they
/// were sent, and the message of each violated rule.
pub open spec fn rejected_page(count: u64, s: Submission) -> SignupPage {
    SignupPage {
        view_count: count,
        email_value: s.email,
        email_error: violations(s).email,
        password_error: violations(s).password,
        confirm_password_error: violations(s).confirm_password,
        username_error: violations(s).username,
        username_value: s.username,
    }
}

/// The signup form for an email that is already registered.
pub open spec fn conflict_page(count: u64, s: Submission) -> SignupPage {
    SignupPage {
        view_count: count,
        email_value: s.email,
        email_error: Some(conflict_message()),
        password_error: None,
        confirm_password_error: None,
        username_error: None,
        username_value: s.username,
    }
}

/// The answer to a failure inside the server: the same few words whatever
/// the cause, which goes to the log alone.
pub open spec fn internal_error(cause: Option<Seq<char>>) -> SignupActionView {
    SignupActionView::Reply {
        response: plain_text(STATUS_INTERNAL_SERVER_ERROR, internal_error_message()),
        cause,
    }
}

/// The answer that ends a request without a cause to log.
pub open spec fn reply(response: ResponseView) -> SignupActionView {
    SignupActionView::Reply { response, cause: None }
}

/// The hash can be stored: there is one, and it is not the password itself.
pub open spec fn hash_usable(s: Submission, hashed: Result<Seq<char>, Seq<char>>) -> bool {
    hashed matches Ok(h) && h != s.password
}

/// The step reads what hashing gave: the email was looked up and not found.
pub open spec fn waits_for_hash(event: SignupEvent) -> bool {
    event == (SignupEvent::EmailLookedUp { found: false })
}

/// The step answers with the form, and so counts a view.
pub open spec fn step_renders(s: Submission, event: SignupEvent) -> bool {
    (event is Submitted && !submission_valid(s)) || event == (SignupEvent::EmailLookedUp {
        found: true,
    })
}

/// What follows the hashing of the password, which gave the hash or the
/// words of a failure. A hash that is the password itself counts as a
/// failure; any other is stored.
pub open spec fn hashed_step(s: Submission, hashed: Result<Seq<char>, Seq<char>>) -> SignupActionView {
    match hashed {
        Ok(h) => if h != s.password {
            SignupActionView::Insert {
                record: UserRow { email: s.email, hashed_password: h, username: s.username },
            }
        } else {
            internal_error(Some(unusable_hash_message()))
        },
        Err(cause) => internal_error(Some(cause)),
    }
}

/// The action for each event. `count` is the view counter before the step;
/// `hashed` is what hashing the password gave, and is read only where the
/// email has been looked up and not found.
pub open spec fn signup_step(
    count: u64,
    s: Submission,
    event: SignupEvent,
    hashed: Result<Seq<char>, Seq<char>>,
) -> SignupActionView {
    match event {
        SignupEvent::Submitted => if submission_valid(s) {
            SignupActionView::FindEmail { email: s.email }
        } else {
            SignupActionView::Render { page: rejected_page((count + 1) as u64, s) }
        },
        SignupEvent::EmailLookedUp { found } => if found {
            SignupActionView::Render { page: conflict_page((count + 1) as u64, s) }
        } else {
            hashed_step(s, hashed)
        },
        SignupEvent::LookupFailed => internal_error(None),
        SignupEvent::Inserted => reply(redirect_to(login_path())),
        SignupEvent::InsertFailed => reply(
            plain_text(STATUS_INTERNAL_SERVER_ERROR, insert_failure_message()),
        ),
    }
}

/// `action` is what a step gives for `event`: the action of `signup_step`
/// for some outcome of the hashing, a hash of sixty characters or a failure;
/// and where the step does not hash, for every outcome alike.
pub open spec fn is_step(
    count: u64,
    s: Submission,
    event: SignupEvent,
    action: SignupActionView,
) -> bool {
    &&& exists|hashed: Result<Seq<char>, Seq<char>>|
        (hashed matches Ok(h) ==> h.len() == HASH_CHARS) && action == #[trigger] signup_step(
            count,
            s,
            event,
            hashed,
        )
    &&& !waits_for_hash(event) ==> forall|hashed: Result<Seq<char>, Seq<char>>|
        action == #[trigger] signup_step(count, s, event, hashed)
}

/// The text on either side of what hashing gave.
pub open spec fn hashed_text(hashed: Result<String, String>) -> Result<Seq<char>, Seq<char>> {
    match hashed {
        Ok(h) => Ok(h@),
        Err(cause) => Err(cause@),
    }
}

/// The blank signup form; counts one view.
pub fn signup(state: &mut AppState) -> (page: HtmlTemplate<SignupTemplate>)
    requires
        old(state).view_count < u64::MAX,
    ensures
        final(state).view_count == old(state).view_count + 1,
        page.0@ == blank_signup_page(final(state).view_count),
{
    let n: u64 = state.count_view();
    HtmlTemplate(
        SignupTemplate {
            view_count: n,
            email_value: String::new(),
            email_error: None,
            password_error: None,
            confirm_password_error: None,
            username_error: None,
            username_value: String::new(),
        },
    )
}

/// The blank login form; counts one view.
pub fn login(state: &mut AppState) -> (page: HtmlTemplate<LoginTemplate>)
    requires
        old(state).view_count < u64::MAX,
    ensures
        final(state).view_count == old(state).view_count + 1,
        page.0@ == (LoginPage {
            view_count: final(state).view_count,
            email_error: None,
            password_error: None,
        }),
{
    let n: u64 = state.count_view();
    HtmlTemplate(LoginTemplate { view_count: n, email_error: None, password_error: None })
}

/// The signup form with the submitted email and username and the given
/// messages.
fn form_page(count: u64, form: &AuthFormModel, errors: FieldErrors) -> (action: SignupAction)
    ensures
        action@ == (SignupActionView::Render {
            page: SignupPage {
                view_count: count,
                email_value: form.email@,
                email_error: errors@.email,
                password_error: errors@.password,
                confirm_password_error: errors@.confirm_password,
                username_error: errors@.username,
                username_value: form.username@,
            },
        }),
{
    SignupAction::Render {
        page: HtmlTemplate(
            SignupTemplate {
                view_count: count,
                email_value: form.email.clone(),
                email_error: errors.email,
                password_error: errors.password,
                confirm_password_error: errors.confirm_password,
                username_error: errors.username,
                username_value: form.username.clone(),
            },
        ),
    }
}

fn internal_error_reply(cause: Option<String>) -> (action: SignupAction)
    ensures
        action@ == internal_error(text_of(cause)),
{
    SignupAction::Reply {
        response: Response::text(STATUS_INTERNAL_SERVER_ERROR, "Internal Server Error"),
        cause,
    }
}

/// Decides what follows the hashing of the password: the row to insert, or
/// the failure with its cause.
pub fn after_hash(form: &AuthFormModel, hashed: Result<String, String>) -> (action: SignupAction)
    ensures
        action@ == hashed_step(form@, hashed_text(hashed)),
{
    match hashed {
        Ok(h) => {
            if h != form.password {
                SignupAction::Insert {
                    record: UserRecord {
                        email: form.email.clone(),
                        hashed_password: h,
                        username: form.username.clone(),
                    },
                }
            } else {
                internal_error_reply(Some("The password hash equals the password.".to_owned()))
            }
        },
        Err(cause) => internal_error_reply(Some(cause)),
    }
}

/// One step of a signup request: the action that `event` calls for.
///
/// A rejected form and a registered email are answered with the form, and
/// each such answer counts one view; no other step touches the counter, and
/// only those steps need room in it. When the email has been looked up and
/// not found the password is hashed, and the action is the one that
/// `hashed_step` gives for whatever the hashing returned: a hash of sixty
/// characters, or the words of a failure.
pub fn post_sign_up_handler(state: &mut AppState, form: &AuthFormModel, event: SignupEvent) -> (action:
    SignupAction)
    requires
        step_renders(form@, event) ==> old(state).view_count < u64::MAX,
    ensures
        is_step(old(state).view_count, form@, event, action@),
        action@ is Render <==> step_renders(form@, event),
        final(state).view_count == old(state).view_count + (if step_renders(form@, event) {
            1int
        } else {
            0int
        }),
{
    let ghost count = state.view_count;
    let ghost mut given: Result<Seq<char>, Seq<char>> = Err(Seq::empty());
    let action = match event {
        SignupEvent::Submitted => match form.validate() {
            Ok(()) => SignupAction::FindEmail { email: form.email.clone() },
            Err(errors) => {
                let n: u64 = state.count_view();
                form_page(n, form, errors)
            },
        },
        SignupEvent::EmailLookedUp { found } => {
            if found {
                let n: u64 = state.count_view();
                let errors = FieldErrors {
                    email: Some("A user with this email already exists.".to_owned()),
                    password: None,
                    confirm_password: None,
                    username: None,
                };
                form_page(n, form, errors)
            } else {
                let hashed: Result<String, String> = match hash_at_default_cost(
                    form.password.as_str(),
                ) {
                    Ok(h) => Ok(h),
                    Err(cause) => Err(failure_text(&cause)),
                };
                proof {
                    given = hashed_text(hashed);
                }
                after_hash(form, hashed)
            }
        },
        SignupEvent::LookupFailed => internal_error_reply(None),
        SignupEvent::Inserted => SignupAction::Reply {
            response: Response::redirect("/login"),
            cause: None,
        },
        SignupEvent::InsertFailed => SignupAction::Reply {
            response: Response::text(STATUS_INTERNAL_SERVER_ERROR, "Could not create account."),
            cause: None,
        },
    };
    assert(action@ == signup_step(count, form@, event, given));
    action
}

/// One step of a signup request for a caller that has not looked at the
/// counter: `None`, and nothing done, where the step would count a view and
/// the counter is full; the step of `post_sign_up_handler` everywhere else.
pub fn try_post_sign_up_handler(
    state: &mut AppState,
    form: &AuthFormModel,
    event: SignupEvent,
) -> (r: Option<SignupAction>)
    ensures
        r is None <==> step_renders(form@, event) && old(state).view_count == u64::MAX,
        r is None ==> final(state).view_count == old(state).view_count,
        r matches Some(action) ==> {
            &&& is_step(old(state).view_count, form@, event, action@)
            &&& action@ is Render <==> step_renders(form@, event)
            &&& final(state).view_count == old(state).view_count + (if step_renders(
                form@,
                event,
            ) {
                1int
            } else {
                0int
            })
        },
{
    let renders: bool = match event {
        SignupEvent::Submitted => form.validate().is_err(),
        SignupEvent::EmailLookedUp { found } => found,
        _ => false,
    };
    if renders && state.view_count == u64::MAX {
        None
    } else {
        Some(post_sign_up_handler(state, form, event))
    }
}

/// Accepts a login form and sends the browser home. Nothing is checked.
pub fn post_log_in_handler(_state: &AppState, _form: &AuthFormModel) -> (r: Response)
    ensures
        r@ == redirect_to(home_path()),
{
    Response::redirect("/")
}

/// What the store and the hasher answer in the course of one request.
pub struct Replies {
    /// Whether the email was found; `None` where the lookup failed.
    pub lookup: Option<bool>,
    /// The hash of the password, or the words of the failure.
    pub hashed: Result<Seq<char>, Seq<char>>,
    /// Whether the store took the new row.
    pub inserted: bool,
}

/// How a signup request ends: the row it added to the store, if any, and the
/// action that answers it.
pub struct SignupOutcome {
    pub created: Option<UserRow>,
    pub answer: SignupActionView,
}

/// A whole signup request: the steps of `signup_step` in turn, each waiting
/// action performed and answered as `world` says.
pub open spec fn signup_run(count: u64, s: Submission, world: Replies) -> SignupOutcome {
    let first = signup_step(count, s, SignupEvent::Submitted, world.hashed);
    if first is FindEmail {
        let second = match world.lookup {
            Some(found) => signup_step(
                count,
                s,
                SignupEvent::EmailLookedUp { found },
                world.hashed,
            ),
            None => signup_step(count, s, SignupEvent::LookupFailed, world.hashed),
        };
        match second {
            SignupActionView::Insert { record } => if world.inserted {
                SignupOutcome {
                    created: Some(record),
                    answer: signup_step(count, s, SignupEvent::Inserted, world.hashed),
                }
            } else {
                SignupOutcome {
                    created: None,
                    answer: signup_step(count, s, SignupEvent::InsertFailed, world.hashed),
                }
            },
            _ => SignupOutcome { created: None, answer: second },
        }
    } else {
        SignupOutcome { created: None, answer: first }
    }
}

/// A request ends with the form or with a response, never with a wait. It
/// adds a row only for a valid form whose email was looked up and not found,
/// and that row holds the submitted email and username and a hash that
/// differs from the password.
pub proof fn created_row_is_sound(count: u64, s: Submission, world: Replies)
    ensures
        signup_run(count, s, world).answer is Render || signup_run(count, s, world).answer is Reply,
        signup_run(count, s, world).created matches Some(row) ==> {
            &&& submission_valid(s)
            &&& world.lookup == Some(false)
            &&& world.inserted
            &&& row.email == s.email
            &&& row.username == s.username
            &&& world.hashed == Ok::<Seq<char>, Seq<char>>(row.hashed_password)
            &&& row.hashed_password != s.password
            &&& signup_run(count, s, world).answer == reply(redirect_to(login_path()))
        },
{
}

/// Where the two passwords differ, the request ends with the form, the
/// confirmation field carries its message, and no row is added, whatever
/// the store would have answered.
pub proof fn mismatch_creates_no_row(count: u64, s: Submission, world: Replies)
    requires
        s.password != s.confirm_password,
    ensures
        signup_run(count, s, world).created is None,
        signup_run(count, s, world).answer == (SignupActionView::Render {
            page: rejected_page((count + 1) as u64, s),
        }),
        rejected_page((count + 1) as u64, s).confirm_password_error == Some(mismatch_message()),
{
}

/// Where the store holds the email already, no row is added, and a form that
/// is valid otherwise comes back with the conflict message on the email
/// field.
pub proof fn known_email_creates_no_row(count: u64, s: Submission, world: Replies)
    requires
        world.lookup == Some(true),
    ensures
        signup_run(count, s, world).created is None,
        submission_valid(s) ==> signup_run(count, s, world).answer == (SignupActionView::Render {
            page: conflict_page((count + 1) as u64, s),
        }),
        conflict_page((count + 1) as u64, s).email_error == Some(conflict_message()),
{
}

/// A valid form with an unknown email, a hash that is not the password and a
/// store that takes the row: exactly that row is added, and the answer is a
/// redirect to the login page.
pub proof fn valid_signup_succeeds(count: u64, s: Submission, world: Replies, hash: Seq<char>)
    requires
        submission_valid(s),
        world.lookup == Some(false),
        world.hashed == Ok::<Seq<char>, Seq<char>>(hash),
        hash != s.password,
        world.inserted,
    ensures
        signup_run(count, s, world).created == Some(
            UserRow { email: s.email, hashed_password: hash, username: s.username },
        ),
        signup_run(count, s, world).answer == reply(redirect_to(login_path())),
{
}

/// How a request ends, for every form and every answer of the store and the
/// hasher. It ends with the redirect to the login page exactly when the
/// form is valid, the email unknown, the hash usable and the row taken;
/// with status 500 and a few fixed words exactly when the form is valid and
/// the lookup, the hashing or the insert failed; and with the form
/// otherwise. A row is added exactly where it ends with the redirect.
pub proof fn signup_outcome_table(count: u64, s: Submission, world: Replies)
    ensures
        signup_run(count, s, world).answer == reply(redirect_to(login_path())) <==> (
        submission_valid(s) && world.lookup == Some(false) && hash_usable(s, world.hashed)
            && world.inserted),
        signup_run(count, s, world).created is Some <==> signup_run(count, s, world).answer
            == reply(redirect_to(login_path())),
        (signup_run(count, s, world).answer matches SignupActionView::Reply { response, cause }
            && response.status == STATUS_INTERNAL_SERVER_ERROR) <==> (submission_valid(s) && (
        world.lookup is None || (world.lookup == Some(false) && (!hash_usable(s, world.hashed)
            || !world.inserted)))),
        signup_run(count, s, world).answer matches SignupActionView::Reply { response, cause }
            ==> (response.status == STATUS_INTERNAL_SERVER_ERROR ==> response == plain_text(
            STATUS_INTERNAL_SERVER_ERROR,
            if world.lookup == Some(false) && hash_usable(s, world.hashed) {
                insert_failure_message()
            } else {
                internal_error_message()
            },
        )),
        signup_run(count, s, world).answer is Render <==> (!submission_valid(s) || world.lookup
            == Some(true)),
{
}

/// Every form that a step answers with echoes the submitted email and
/// username exactly.
pub proof fn form_echoes_email_and_username(
    count: u64,
    s: Submission,
    event: SignupEvent,
    hashed: Result<Seq<char>, Seq<char>>,
)
    ensures
        signup_step(count, s, event, hashed) matches SignupActionView::Render { page } ==> {
            &&& page.email_value == s.email
            &&& page.username_value == s.username
            &&& page.view_count == (count + 1) as u64
        },
{
}

/// The form that answers a step depends on the two passwords only through
/// the rules they break: two submissions with the same email and username
/// that break the same rules get the same form, whatever their passwords.
pub proof fn form_does_not_echo_passwords(
    count: u64,
    a: Submission,
    b: Submission,
    event: SignupEvent,
    hashed: Result<Seq<char>, Seq<char>>,
)
    requires
        a.email == b.email,
        a.username == b.username,
        violations(a) == violations(b),
        signup_step(count, a, event, hashed) is Render,
    ensures
        signup_step(count, b, event, hashed) == signup_step(count, a, event, hashed),
{
}

} // verus!
