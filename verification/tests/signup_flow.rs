use axum_askama_template::handlers::auth::{
    after_hash, login, post_log_in_handler, post_sign_up_handler, signup,
    try_post_sign_up_handler, SignupAction, SignupEvent, UserRecord,
};
use axum_askama_template::models::user_form_models::AuthFormModel;
use axum_askama_template::state::AppState;
use axum_askama_template::util::ContentKind;

fn form(email: &str, password: &str, confirm: &str, username: &str) -> AuthFormModel {
    AuthFormModel {
        email: email.to_string(),
        password: password.to_string(),
        confirm_password: confirm.to_string(),
        username: username.to_string(),
    }
}

fn good() -> AuthFormModel {
    form("new@example.com", "Abcdefg1", "Abcdefg1", "alice")
}

#[test]
fn blank_signup_page_counts_a_view() {
    let mut state = AppState { view_count: 4 };
    let page = signup(&mut state).0;
    assert_eq!(state.view_count, 5);
    assert_eq!(page.view_count, 5);
    assert_eq!(page.email_value, "");
    assert_eq!(page.username_value, "");
    assert_eq!(page.email_error, None);
    assert_eq!(page.password_error, None);
    assert_eq!(page.confirm_password_error, None);
    assert_eq!(page.username_error, None);
}

#[test]
fn blank_login_page_counts_a_view() {
    let mut state = AppState::new();
    let page = login(&mut state).0;
    assert_eq!(state.view_count, 1);
    assert_eq!(page.view_count, 1);
    assert_eq!(page.email_error, None);
    assert_eq!(page.password_error, None);
}

#[test]
fn valid_form_asks_for_the_email() {
    let mut state = AppState { view_count: 7 };
    match post_sign_up_handler(&mut state, &good(), SignupEvent::Submitted) {
        SignupAction::FindEmail { email } => assert_eq!(email, "new@example.com"),
        _ => panic!("expected a lookup"),
    }
    assert_eq!(state.view_count, 7);
}

#[test]
fn rejected_form_comes_back_with_email_and_username() {
    let mut state = AppState { view_count: 7 };
    let f = form("new@example.com", "Secret-Pass1", "Other-Pass2", "al");
    match post_sign_up_handler(&mut state, &f, SignupEvent::Submitted) {
        SignupAction::Render { page } => {
            let page = page.0;
            assert_eq!(page.view_count, 8);
            assert_eq!(page.email_value, "new@example.com");
            assert_eq!(page.username_value, "al");
            assert_eq!(page.email_error, None);
            assert_eq!(page.password_error, None);
            assert_eq!(
                page.confirm_password_error.as_deref(),
                Some("The passwords do not match.")
            );
            assert_eq!(
                page.username_error.as_deref(),
                Some("Username must be at least 3 characters long.")
            );
            let shown = format!(
                "{}{}{:?}{:?}{:?}{:?}",
                page.email_value,
                page.username_value,
                page.email_error,
                page.password_error,
                page.confirm_password_error,
                page.username_error
            );
            assert!(!shown.contains("Secret-Pass1"));
            assert!(!shown.contains("Other-Pass2"));
        }
        _ => panic!("expected the form"),
    }
    assert_eq!(state.view_count, 8);
}

#[test]
fn mismatch_never_reaches_the_store() {
    let mut state = AppState::new();
    let f = form("new@example.com", "Abcdefg1", "Abcdefg2", "alice");
    let action = post_sign_up_handler(&mut state, &f, SignupEvent::Submitted);
    assert!(matches!(action, SignupAction::Render { .. }));
    assert_eq!(state.view_count, 1);
}

#[test]
fn known_email_comes_back_with_a_conflict() {
    let mut state = AppState { view_count: 1 };
    match post_sign_up_handler(&mut state, &good(), SignupEvent::EmailLookedUp { found: true }) {
        SignupAction::Render { page } => {
            let page = page.0;
            assert_eq!(page.view_count, 2);
            assert_eq!(
                page.email_error.as_deref(),
                Some("A user with this email already exists.")
            );
            assert!(page.email_error.unwrap().contains("already exists"));
            assert_eq!(page.email_value, "new@example.com");
            assert_eq!(page.username_value, "alice");
            assert_eq!(page.password_error, None);
            assert_eq!(page.confirm_password_error, None);
            assert_eq!(page.username_error, None);
        }
        _ => panic!("expected the form"),
    }
    assert_eq!(state.view_count, 2);
}

#[test]
fn unknown_email_leads_to_an_insert_of_a_real_hash() {
    let mut state = AppState { view_count: 3 };
    match post_sign_up_handler(&mut state, &good(), SignupEvent::EmailLookedUp { found: false }) {
        SignupAction::Insert { record } => {
            assert_eq!(record.email, "new@example.com");
            assert_eq!(record.username, "alice");
            assert_ne!(record.hashed_password, "Abcdefg1");
            assert_eq!(record.hashed_password.chars().count(), 60);
            assert!(record.hashed_password.starts_with("$2b$12$"));
            assert!(bcrypt::verify("Abcdefg1", &record.hashed_password).unwrap());
            assert!(!bcrypt::verify("abcdefg1", &record.hashed_password).unwrap());
        }
        _ => panic!("expected an insert"),
    }
    assert_eq!(state.view_count, 3);
}

#[test]
fn hash_is_stored_as_given() {
    match after_hash(&good(), Ok("$2b$12$abcdefghijklmnopqrstuv".to_string())) {
        SignupAction::Insert { record } => {
            assert_eq!(record.email, "new@example.com");
            assert_eq!(record.hashed_password, "$2b$12$abcdefghijklmnopqrstuv");
            assert_eq!(record.username, "alice");
        }
        _ => panic!("expected an insert"),
    }
}

#[test]
fn missing_hash_is_an_internal_error() {
    match after_hash(&good(), Err("no randomness".to_string())) {
        SignupAction::Reply { response, cause } => {
            assert_eq!(response.status, 500);
            assert_eq!(response.kind, ContentKind::PlainText);
            assert_eq!(response.body, "Internal Server Error");
            assert_eq!(response.location, None);
            assert_eq!(cause.as_deref(), Some("no randomness"));
            assert!(!response.body.contains("no randomness"));
        }
        _ => panic!("expected a reply"),
    }
}

#[test]
fn raw_password_is_never_stored() {
    match after_hash(&good(), Ok("Abcdefg1".to_string())) {
        SignupAction::Reply { response, cause } => {
            assert_eq!(response.status, 500);
            assert_eq!(response.body, "Internal Server Error");
            assert_eq!(cause.as_deref(), Some("The password hash equals the password."));
        }
        _ => panic!("expected a reply"),
    }
}

#[test]
fn failed_lookup_is_an_internal_error() {
    let mut state = AppState { view_count: 9 };
    match post_sign_up_handler(&mut state, &good(), SignupEvent::LookupFailed) {
        SignupAction::Reply { response, cause } => {
            assert_eq!(response.status, 500);
            assert_eq!(response.kind, ContentKind::PlainText);
            assert_eq!(response.body, "Internal Server Error");
            assert_eq!(response.location, None);
            assert_eq!(cause, None);
        }
        _ => panic!("expected a reply"),
    }
    assert_eq!(state.view_count, 9);
}

#[test]
fn stored_row_redirects_to_login() {
    let mut state = AppState { view_count: 9 };
    match post_sign_up_handler(&mut state, &good(), SignupEvent::Inserted) {
        SignupAction::Reply { response, cause } => {
            assert_eq!(response.status, 303);
            assert_eq!(response.location.as_deref(), Some("/login"));
            assert_eq!(response.body, "");
            assert_eq!(cause, None);
        }
        _ => panic!("expected a reply"),
    }
    assert_eq!(state.view_count, 9);
}

#[test]
fn refused_row_is_an_internal_error() {
    let mut state = AppState { view_count: 9 };
    match post_sign_up_handler(&mut state, &good(), SignupEvent::InsertFailed) {
        SignupAction::Reply { response, cause } => {
            assert_eq!(response.status, 500);
            assert_eq!(response.body, "Could not create account.");
            assert_eq!(response.location, None);
            assert_eq!(cause, None);
        }
        _ => panic!("expected a reply"),
    }
    assert_eq!(state.view_count, 9);
}

#[test]
fn login_submission_redirects_home() {
    let state = AppState::new();
    let response = post_log_in_handler(&state, &form("x", "y", "", ""));
    assert_eq!(response.status, 303);
    assert_eq!(response.location.as_deref(), Some("/"));
    assert_eq!(response.body, "");
    assert_eq!(state.view_count, 0);
}

/// Runs one request against a store held in memory, as a server would
/// against a real one.
fn run(store: &mut Vec<UserRecord>, state: &mut AppState, f: &AuthFormModel) -> SignupAction {
    let mut event = SignupEvent::Submitted;
    loop {
        match post_sign_up_handler(state, f, event) {
            SignupAction::FindEmail { email } => {
                let found = store.iter().any(|row| row.email == email);
                event = SignupEvent::EmailLookedUp { found };
            }
            SignupAction::Insert { record } => {
                if store.iter().any(|row| row.email == record.email) {
                    event = SignupEvent::InsertFailed;
                } else {
                    store.push(record);
                    event = SignupEvent::Inserted;
                }
            }
            last => return last,
        }
    }
}

#[test]
fn whole_signup_creates_one_row_and_redirects() {
    let mut store: Vec<UserRecord> = Vec::new();
    let mut state = AppState::new();
    match run(&mut store, &mut state, &good()) {
        SignupAction::Reply { response, cause } => {
            assert_eq!(response.status, 303);
            assert_eq!(response.location.as_deref(), Some("/login"));
            assert_eq!(cause, None);
        }
        _ => panic!("expected a redirect"),
    }
    assert_eq!(store.len(), 1);
    assert_eq!(store[0].email, "new@example.com");
    assert_eq!(store[0].username, "alice");
    assert_ne!(store[0].hashed_password, "Abcdefg1");
    assert_eq!(state.view_count, 0);
}

#[test]
fn second_signup_with_the_same_email_adds_no_row() {
    let mut store: Vec<UserRecord> = vec![UserRecord {
        email: "new@example.com".to_string(),
        hashed_password: "$2b$12$stored".to_string(),
        username: "first".to_string(),
    }];
    let mut state = AppState { view_count: 10 };
    match run(&mut store, &mut state, &good()) {
        SignupAction::Render { page } => {
            assert!(page.0.email_error.unwrap().contains("already exists"));
            assert_eq!(page.0.view_count, 11);
        }
        _ => panic!("expected the form"),
    }
    assert_eq!(store.len(), 1);
    assert_eq!(store[0].username, "first");
    assert_eq!(state.view_count, 11);
}

#[test]
fn email_is_matched_exactly() {
    let mut store: Vec<UserRecord> = vec![UserRecord {
        email: "New@example.com".to_string(),
        hashed_password: "$2b$12$stored".to_string(),
        username: "first".to_string(),
    }];
    let mut state = AppState::new();
    let last = run(&mut store, &mut state, &good());
    assert!(matches!(last, SignupAction::Reply { .. }));
    assert_eq!(store.len(), 2);
    assert_eq!(store[1].email, "new@example.com");
}

#[test]
fn mismatched_signup_adds_no_row() {
    let mut store: Vec<UserRecord> = Vec::new();
    let mut state = AppState::new();
    let f = form("new@example.com", "Abcdefg1", "Abcdefg2", "alice");
    match run(&mut store, &mut state, &f) {
        SignupAction::Render { page } => {
            assert_eq!(
                page.0.confirm_password_error.as_deref(),
                Some("The passwords do not match.")
            );
        }
        _ => panic!("expected the form"),
    }
    assert!(store.is_empty());
    assert_eq!(state.view_count, 1);
}

#[test]
fn steps_that_render_nothing_need_no_room_in_the_counter() {
    let mut state = AppState { view_count: u64::MAX };
    let first = post_sign_up_handler(&mut state, &good(), SignupEvent::Submitted);
    assert!(matches!(first, SignupAction::FindEmail { .. }));
    let failed = post_sign_up_handler(&mut state, &good(), SignupEvent::LookupFailed);
    assert!(matches!(failed, SignupAction::Reply { .. }));
    let stored = post_sign_up_handler(&mut state, &good(), SignupEvent::Inserted);
    assert!(matches!(stored, SignupAction::Reply { .. }));
    let refused = post_sign_up_handler(&mut state, &good(), SignupEvent::InsertFailed);
    assert!(matches!(refused, SignupAction::Reply { .. }));
    assert_eq!(state.view_count, u64::MAX);
}

#[test]
fn last_view_is_counted_by_a_rejected_form() {
    let mut state = AppState { view_count: u64::MAX - 1 };
    let f = form("new@example.com", "Abcdefg1", "Abcdefg2", "alice");
    let action = post_sign_up_handler(&mut state, &f, SignupEvent::Submitted);
    assert!(matches!(action, SignupAction::Render { .. }));
    assert_eq!(state.view_count, u64::MAX);
}

#[test]
fn full_counter_stops_only_the_steps_that_render() {
    let mut state = AppState { view_count: u64::MAX };
    let bad = form("new@example.com", "Abcdefg1", "Abcdefg2", "alice");
    assert!(try_post_sign_up_handler(&mut state, &bad, SignupEvent::Submitted).is_none());
    let taken = SignupEvent::EmailLookedUp { found: true };
    assert!(try_post_sign_up_handler(&mut state, &good(), taken).is_none());
    assert_eq!(state.view_count, u64::MAX);
    let first = try_post_sign_up_handler(&mut state, &good(), SignupEvent::Submitted);
    assert!(matches!(first, Some(SignupAction::FindEmail { .. })));
    let stored = try_post_sign_up_handler(&mut state, &good(), SignupEvent::Inserted);
    assert!(matches!(stored, Some(SignupAction::Reply { .. })));
    assert_eq!(state.view_count, u64::MAX);
}

#[test]
fn counter_with_room_takes_every_step() {
    let mut state = AppState { view_count: 2 };
    let bad = form("new@example.com", "Abcdefg1", "Abcdefg2", "alice");
    match try_post_sign_up_handler(&mut state, &bad, SignupEvent::Submitted) {
        Some(SignupAction::Render { page }) => assert_eq!(page.0.view_count, 3),
        _ => panic!("expected the form"),
    }
    assert_eq!(state.view_count, 3);
}
