use app_core::model::{CoreError, SessionState};
use app_core::user_repository::{
    email_from_lowercase, id_from_lowercase, make_email, make_user_id, UserRepository,
};

#[test]
fn fake_login_produces_active_session() {
    let mut core = UserRepository::new();
    let state = core.fake_login("Ada Lovelace");
    match state {
        SessionState::Active { user, token } => {
            assert_eq!(user.display_name, "Ada Lovelace");
            assert_eq!(user.id, "u_ada_lovelace");
            assert_eq!(token, "fake-jwt-token");
        }
        _ => panic!("expected active session"),
    }
    assert!(core.current_user().is_some());
    core.logout();
    assert!(core.current_user().is_none());
}

#[test]
fn new_repository_is_logged_out() {
    let repo = UserRepository::new();
    assert!(matches!(repo.current_session(), SessionState::LoggedOut));
    assert!(repo.current_user().is_none());
    let repo = UserRepository::default();
    assert!(matches!(repo.current_session(), SessionState::LoggedOut));
}

#[test]
fn login_fabricates_email() {
    let mut repo = UserRepository::new();
    let state = repo.fake_login("Ada Lovelace");
    match state {
        SessionState::Active { user, .. } => {
            assert_eq!(user.email.as_deref(), Some("ada.lovelace@example.com"));
        }
        _ => panic!("expected active session"),
    }
}

#[test]
fn current_session_gives_back_the_login() {
    let mut repo = UserRepository::new();
    let _ = repo.fake_login("Grace Hopper");
    match repo.current_session() {
        SessionState::Active { user, token } => {
            assert_eq!(user.id, "u_grace_hopper");
            assert_eq!(user.display_name, "Grace Hopper");
            assert_eq!(user.email.as_deref(), Some("grace.hopper@example.com"));
            assert_eq!(token, "fake-jwt-token");
        }
        _ => panic!("expected active session"),
    }
    let user = repo.current_user().expect("a user is logged in");
    assert_eq!(user.id, "u_grace_hopper");
}

#[test]
fn second_login_replaces_the_first() {
    let mut repo = UserRepository::new();
    let _ = repo.fake_login("Ada Lovelace");
    let _ = repo.fake_login("Alan Turing");
    let user = repo.current_user().expect("a user is logged in");
    assert_eq!(user.id, "u_alan_turing");
    assert_eq!(user.display_name, "Alan Turing");
}

#[test]
fn logout_twice_stays_logged_out() {
    let mut repo = UserRepository::new();
    repo.logout();
    repo.logout();
    assert!(matches!(repo.current_session(), SessionState::LoggedOut));
}

#[test]
fn user_id_lowercases_and_replaces_every_space() {
    assert_eq!(make_user_id("Grace  Brewster Hopper"), "u_grace__brewster_hopper");
    assert_eq!(make_user_id(""), "u_");
    assert_eq!(make_user_id("ÉMILE Zola"), "u_émile_zola");
    assert!(!make_user_id(" a b ").contains(' '));
}

#[test]
fn email_lowercases_and_replaces_every_space() {
    assert_eq!(make_email("Ada Lovelace"), "ada.lovelace@example.com");
    assert_eq!(make_email("ÉMILE Zola"), "émile.zola@example.com");
    assert_eq!(make_email(""), "@example.com");
    assert!(!make_email(" x ").contains(' '));
}

#[test]
fn core_error_messages() {
    let e = CoreError::Network { message: "timeout".to_string() };
    assert_eq!(e.message(), "network error: timeout");
    let e = CoreError::Decode { message: "bad json".to_string() };
    assert_eq!(e.message(), "decoding error: bad json");
    let e = CoreError::NotFound { message: "no asset 'X'".to_string() };
    assert_eq!(e.message(), "not found: no asset 'X'");
    assert_eq!(CoreError::Unauthenticated.message(), "not authenticated");
}

#[test]
fn cloned_session_keeps_its_fields() {
    let mut repo = UserRepository::new();
    let state = repo.fake_login("Ada Lovelace");
    let copy = state.clone();
    match copy {
        SessionState::Active { user, token } => {
            assert_eq!(user.id, "u_ada_lovelace");
            assert_eq!(token, "fake-jwt-token");
        }
        _ => panic!("expected active session"),
    }
}

#[test]
fn id_and_email_from_lowercased_text() {
    assert_eq!(id_from_lowercase("ada lovelace"), "u_ada_lovelace");
    assert_eq!(id_from_lowercase(" a  b"), "u__a__b");
    assert_eq!(email_from_lowercase("ada lovelace"), "ada.lovelace@example.com");
    assert_eq!(email_from_lowercase(""), "@example.com");
}
