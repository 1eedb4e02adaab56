use connected_home::database::Database;
use connected_home::endpoints::auth::{post_login, post_register, post_session, LoginForm, LoginResponse, SessionForm};
use connected_home::environment::Environment;

fn test_env() -> Environment {
    Environment {
        password_pepper: "unit-test-pepper".to_string(),
        mysql_host: "localhost".to_string(),
        mysql_database: "smarthome".to_string(),
        mysql_username: "smarthome".to_string(),
        mysql_password: "db-password".to_string(),
        host: "https://api.example.test".to_string(),
        assistant_project_id: "project".to_string(),
    }
}

fn form(email: &str, password: &str) -> LoginForm {
    LoginForm { email: base64::encode(email), password: base64::encode(password) }
}

fn is_alnum_token(s: &str, len: usize) -> bool {
    s.len() == len && s.chars().all(|c| c.is_ascii_alphanumeric())
}

#[test]
fn register_then_login_succeeds() {
    let mut db = Database::new();
    let env = test_env();

    let reg = post_register(&mut db, &env, &form("alice@example.test", "hunter2")).unwrap();
    assert_eq!(reg.status, 200);
    let reg_session = reg.session_id.expect("registration returns a session");
    assert!(is_alnum_token(&reg_session, 64));

    let login = post_login(&mut db, &env, &form("alice@example.test", "hunter2")).unwrap();
    assert_eq!(login.status, 200);
    assert!(login.status_message.is_none());
    let session = login.session_id.expect("login returns a session");
    assert!(is_alnum_token(&session, 64));
    assert!(!session.is_empty());
}

#[test]
fn wrong_password_and_unknown_email_are_indistinguishable() {
    let mut db = Database::new();
    let env = test_env();
    post_register(&mut db, &env, &form("bob@example.test", "correct-horse")).unwrap();

    let wrong_pw = post_login(&mut db, &env, &form("bob@example.test", "battery-staple")).unwrap();
    let no_user = post_login(&mut db, &env, &form("nobody@example.test", "whatever")).unwrap();

    assert_eq!(wrong_pw.status, 401);
    assert_eq!(no_user.status, 401);
    assert_eq!(wrong_pw.status_message, no_user.status_message);
    assert!(wrong_pw.session_id.is_none());
    assert!(no_user.session_id.is_none());
}

#[test]
fn register_existing_email_conflicts() {
    let mut db = Database::new();
    let env = test_env();
    post_register(&mut db, &env, &form("carol@example.test", "pw-one")).unwrap();
    let again = post_register(&mut db, &env, &form("carol@example.test", "pw-two")).unwrap();
    assert_eq!(again.status, 409);
    assert_eq!(again.status_message.as_deref(), Some("Account already exists"));
    assert!(again.session_id.is_none());
    assert_eq!(db.users.len(), 1);
}

#[test]
fn invalid_base64_email_is_bad_request() {
    let mut db = Database::new();
    let env = test_env();
    let bad = LoginForm { email: "not base64!!".to_string(), password: base64::encode("pw") };
    let err = post_register(&mut db, &env, &bad).unwrap_err();
    assert_eq!(err, "Invalid base64 value for parameter 'email'");

    let bad_pw = LoginForm { email: base64::encode("a@b.c"), password: "%%%".to_string() };
    let err2 = post_login(&mut db, &env, &bad_pw).unwrap_err();
    assert_eq!(err2, "Invalid base64 value for parameter 'password'");
}

#[test]
fn session_endpoint_resolves_registered_session() {
    let mut db = Database::new();
    let env = test_env();
    let reg = post_register(&mut db, &env, &form("dave@example.test", "pw")).unwrap();
    let session_id = reg.session_id.unwrap();

    let found = post_session(&db, &SessionForm { session_id: session_id.clone() });
    assert_eq!(found.status, 200);
    assert!(found.user.is_some());

    let missing = post_session(&db, &SessionForm { session_id: "no-such-session".to_string() });
    assert_eq!(missing.status, 401);
    assert!(missing.user.is_none());
}

#[test]
fn login_response_new_sets_fields() {
    let resp = LoginResponse::new(200, Some("ok".to_string()), Some("sid".to_string()));
    assert_eq!(resp.status, 200);
    assert_eq!(resp.status_message.as_deref(), Some("ok"));
    assert_eq!(resp.session_id.as_deref(), Some("sid"));
}

#[test]
fn login_rotates_the_stored_session() {
    let mut db = Database::new();
    let env = test_env();
    let reg = post_register(&mut db, &env, &form("erin@example.test", "pw")).unwrap();
    let first = reg.session_id.unwrap();
    let login = post_login(&mut db, &env, &form("erin@example.test", "pw")).unwrap();
    let second = login.session_id.unwrap();
    assert_eq!(db.users.len(), 1);
    assert_eq!(db.users[0].session_id.as_deref(), Some(second.as_str()));
    // the old session no longer resolves once a new login replaced it
    if first != second {
        let stale = post_session(&db, &SessionForm { session_id: first });
        assert_eq!(stale.status, 401);
    }
}
