use gamba::auth::{AuthCheck, AuthStep, session_user_id};
use gamba::controllers::user_session::{
    begin_login, check_authorization, logout, record_login, record_sign_in, user_from_discord, AuthorizeQuery,
    DiscordUser,
};
use gamba::database::UserModel;
use gamba::errors::AppError;
use gamba::session::SessionData;

fn user(id: &str) -> UserModel {
    let discord = DiscordUser {
        id: id.to_string(),
        username: "chiko".to_string(),
        avatar_hash: "abc123".to_string(),
    };
    user_from_discord(&discord, "token-1")
}

#[test]
fn default_allows_tokens_without_scope() {
    let check = AuthCheck::default();
    assert!(check.allow_token);
    assert_eq!(check.endpoint_scope, None);
}

#[test]
fn only_cookie_refuses_tokens() {
    let check = AuthCheck::only_cookie();
    assert!(!check.allow_token);
    assert_eq!(check.endpoint_scope, None);
}

#[test]
fn legacy_token_matches_any_endpoint() {
    let check = AuthCheck::default();
    assert!(check.endpoint_scope_matches(None));
    let scoped = AuthCheck { allow_token: true, endpoint_scope: Some(()) };
    assert!(scoped.endpoint_scope_matches(None));
}

#[test]
fn scoped_token_needs_an_endpoint_scope() {
    let check = AuthCheck::default();
    let scopes = vec![()];
    assert!(!check.endpoint_scope_matches(Some(&scopes)));
}

#[test]
fn scoped_token_matches_endpoint_with_its_scope() {
    let check = AuthCheck { allow_token: true, endpoint_scope: Some(()) };
    let scopes = vec![()];
    assert!(check.endpoint_scope_matches(Some(&scopes)));
    let none: Vec<()> = vec![];
    assert!(!check.endpoint_scope_matches(Some(&none)));
}

#[test]
fn request_without_session_is_refused() {
    let session = SessionData::new();
    match AuthCheck::only_cookie().start(&session) {
        AuthStep::Refused { error: AppError::Custom { status, detail }, log } => {
            assert_eq!(status, 403);
            assert_eq!(detail, "this action requires authentication");
            assert_eq!(log.key, "cause");
            assert_eq!(log.value, "no cookie session or auth header found");
        }
        other => panic!("unexpected step {:?}", other),
    }
}

#[test]
fn signed_in_session_looks_up_its_user() {
    let mut session = SessionData::new();
    record_sign_in(&mut session, &user("1234567890"));
    match AuthCheck::only_cookie().start(&session) {
        AuthStep::LookUpUser(id) => assert_eq!(id, "1234567890"),
        other => panic!("unexpected step {:?}", other),
    }
    assert_eq!(session_user_id(&session), Some("1234567890".to_string()));
}

#[test]
fn logout_ends_the_session() {
    let mut session = SessionData::new();
    record_sign_in(&mut session, &user("42"));
    assert!(logout(&mut session));
    assert_eq!(session_user_id(&session), None);
    assert!(matches!(AuthCheck::only_cookie().start(&session), AuthStep::Refused { .. }));
}

#[test]
fn found_user_authenticates() {
    let (result, log) = AuthCheck::only_cookie().finish("77", Ok(user("77")));
    assert_eq!(log.key, "uid");
    assert_eq!(log.value, "77");
    let auth = result.unwrap();
    assert_eq!(auth.user_id(), "77");
    assert_eq!(auth.user().username, "chiko");
    assert_eq!(auth.user().avatar.as_deref(), Some("abc123"));
    assert_eq!(auth.user().access_token.as_deref(), Some("token-1"));
}

#[test]
fn failed_lookup_is_internal_error() {
    let lookup = Err(gamba::database::user_or_not_found(None).unwrap_err());
    let (result, log) = AuthCheck::only_cookie().finish("77", lookup);
    assert_eq!(log.key, "cause");
    assert_eq!(log.value, "User not found");
    match result {
        Err(AppError::Internal { description }) => {
            assert_eq!(description, "user_id from cookie not found in database")
        }
        other => panic!("unexpected result {:?}", other.map(|a| a.user_id())),
    }
}

#[test]
fn login_then_authorize_gives_verifier() {
    let mut session = SessionData::new();
    record_login(&mut session, "state-1".to_string(), "verifier-1".to_string());
    let query = AuthorizeQuery { code: "code".to_string(), state: "state-1".to_string() };
    assert_eq!(check_authorization(&mut session, &query).unwrap(), "verifier-1");
    assert_eq!(session.get("auth_csrf_state"), None);
    assert_eq!(session.get("auth_code_verifier"), None);
}

#[test]
fn forged_state_is_refused_and_consumed() {
    let mut session = SessionData::new();
    record_login(&mut session, "state-1".to_string(), "verifier-1".to_string());
    let forged = AuthorizeQuery { code: "code".to_string(), state: "state-2".to_string() };
    match check_authorization(&mut session, &forged) {
        Err(AppError::Custom { status, detail }) => {
            assert_eq!(status, 400);
            assert_eq!(detail, "Invalid CSRF state");
        }
        other => panic!("unexpected result {:?}", other),
    }
    assert_eq!(session.get("auth_csrf_state"), None);
    assert_eq!(session.get("auth_code_verifier"), Some("verifier-1".to_string()));
    let retry = AuthorizeQuery { code: "code".to_string(), state: "state-1".to_string() };
    assert!(check_authorization(&mut session, &retry).is_err());
}

#[test]
fn missing_verifier_is_refused() {
    let mut session = SessionData::new();
    session.insert("auth_csrf_state".to_string(), "s".to_string());
    let query = AuthorizeQuery { code: "c".to_string(), state: "s".to_string() };
    match check_authorization(&mut session, &query) {
        Err(AppError::Custom { status, detail }) => {
            assert_eq!(status, 400);
            assert_eq!(detail, "Missing code verifier");
        }
        other => panic!("unexpected result {:?}", other),
    }
}

#[test]
fn state_serves_once() {
    let mut session = SessionData::new();
    record_login(&mut session, "s".to_string(), "v".to_string());
    let query = AuthorizeQuery { code: "c".to_string(), state: "s".to_string() };
    assert!(check_authorization(&mut session, &query).is_ok());
    assert!(check_authorization(&mut session, &query).is_err());
}

#[test]
fn login_keeps_signed_in_user() {
    let mut session = SessionData::new();
    record_sign_in(&mut session, &user("9"));
    record_login(&mut session, "s".to_string(), "v".to_string());
    let query = AuthorizeQuery { code: "c".to_string(), state: "x".to_string() };
    assert!(check_authorization(&mut session, &query).is_err());
    assert_eq!(session_user_id(&session), Some("9".to_string()));
}

#[test]
fn begin_login_keeps_verifier_of_its_challenge() {
    let mut session = SessionData::new();
    let start = begin_login(&mut session);
    assert_eq!(session.get("auth_csrf_state"), Some(start.state.clone()));
    let query = AuthorizeQuery { code: "c".to_string(), state: start.state.clone() };
    let verifier = check_authorization(&mut session, &query).unwrap();
    let expected = oauth2::PkceCodeChallenge::from_code_verifier_sha256(
        &oauth2::PkceCodeVerifier::new(verifier),
    );
    assert_eq!(expected.as_str(), start.pkce_challenge.as_str());
    let other = begin_login(&mut SessionData::new());
    assert_ne!(other.state, start.state);
}

#[test]
fn callback_then_sign_in_names_the_user() {
    let mut session = SessionData::new();
    session.insert("theme".to_string(), "dark".to_string());
    record_login(&mut session, "s".to_string(), "v".to_string());
    let query = AuthorizeQuery { code: "c".to_string(), state: "s".to_string() };
    assert_eq!(check_authorization(&mut session, &query).unwrap(), "v");
    record_sign_in(&mut session, &user("5"));
    assert_eq!(session_user_id(&session), Some("5".to_string()));
    assert_eq!(session.get("auth_csrf_state"), None);
    assert_eq!(session.get("auth_code_verifier"), None);
    assert_eq!(session.get("theme"), Some("dark".to_string()));
}
