use connected_home::appdata::{OAuthCredentials, OAuthIdentifier};
use connected_home::config::get_oauth_credentials;
use connected_home::database::Database;
use connected_home::endpoints::auth::{post_register, LoginForm};
use connected_home::endpoints::oauth::{
    get_login, post_finish, post_token, FinishFlowForm, TokenOutcome,
};
use connected_home::environment::Environment;

fn test_env() -> Environment {
    Environment {
        password_pepper: "oauth-pepper".to_string(),
        mysql_host: "localhost".to_string(),
        mysql_database: "smarthome".to_string(),
        mysql_username: "smarthome".to_string(),
        mysql_password: "db-password".to_string(),
        host: "https://api.example.test".to_string(),
        assistant_project_id: "project".to_string(),
    }
}

fn consumer() -> OAuthCredentials {
    OAuthCredentials {
        client_id: "X".to_string(),
        client_secret: "S".to_string(),
        identifier: OAuthIdentifier::GOOGLE,
    }
}

fn register_session(db: &mut Database, env: &Environment) -> String {
    let form = LoginForm {
        email: base64::encode("user@example.test"),
        password: base64::encode("pw"),
    };
    post_register(db, env, &form).unwrap().session_id.unwrap()
}

fn is_alnum_token(s: &str, len: usize) -> bool {
    s.len() == len && s.chars().all(|c| c.is_ascii_alphanumeric())
}

const REDIRECT: &str = "https://oauth-redirect.googleusercontent.com/r/abc";

fn initiate(db: &mut Database, creds: &OAuthCredentials, env: &Environment) -> String {
    let url = get_login(
        db,
        creds,
        env,
        Some("X"),
        Some(REDIRECT),
        Some("s1"),
        Some("smarthome"),
        Some("code"),
        Some("en"),
    )
    .unwrap();
    assert!(url.starts_with("https://api.example.test/static/login/login.html?is_oauth=true&state="));
    let internal_state = db.oauth_states.last().unwrap().internal_state.clone();
    assert!(is_alnum_token(&internal_state, 64));
    assert!(url.ends_with(&internal_state));
    internal_state
}

#[test]
fn oauth_end_to_end() {
    let mut db = Database::new();
    let env = test_env();
    let creds = consumer();
    let session_id = register_session(&mut db, &env);

    // initiate
    let internal_state = initiate(&mut db, &creds, &env);
    assert_eq!(db.oauth_states.last().unwrap().oauth_state, "s1");
    assert_eq!(db.oauth_states.last().unwrap().oauth_redirect_uri, REDIRECT);

    // consent completion
    let finish = post_finish(
        &mut db,
        &FinishFlowForm { session_id: session_id.clone(), internal_state: internal_state.clone() },
    );
    assert_eq!(finish.status, 200);
    let code = db.oauth_authorization_codes.last().unwrap().authorization_code.clone();
    assert!(is_alnum_token(&code, 64));
    let redirect = finish.redirect_uri.unwrap();
    assert_eq!(redirect, format!("{}?code={}&state=s1", REDIRECT, code));

    // token exchange
    let now: i64 = 1_000_000;
    let outcome = post_token(
        &mut db,
        &creds,
        &env,
        Some("X"),
        Some("S"),
        Some("authorization_code"),
        Some(&code),
        Some("https://api.example.test/oauth/login"),
        None,
        now,
    );
    let token = match outcome {
        TokenOutcome::Issued(t) => t,
        _ => panic!("expected an issued token"),
    };
    assert_eq!(token.token_type, "Bearer");
    assert!(is_alnum_token(&token.access_token, 32));
    assert!(is_alnum_token(&token.refresh_token, 64));
    assert_eq!(token.expires_in, 3600);
    assert_eq!(db.oauth_grants.last().unwrap().expiry, now + 3600);

    // refresh
    let later: i64 = 2_000_000;
    let outcome = post_token(
        &mut db,
        &creds,
        &env,
        Some("X"),
        Some("S"),
        Some("refresh_token"),
        None,
        None,
        Some(&token.refresh_token),
        later,
    );
    let refreshed = match outcome {
        TokenOutcome::Refreshed(t) => t,
        _ => panic!("expected a refreshed token"),
    };
    assert_eq!(refreshed.token_type, "Bearer");
    assert!(is_alnum_token(&refreshed.access_token, 32));
    assert_eq!(refreshed.expires_in, 3600);
    let grant = db.oauth_grants.last().unwrap();
    assert_eq!(grant.refresh_token, token.refresh_token);
    assert_eq!(grant.access_token, refreshed.access_token);
    assert_eq!(grant.expiry, later + 3600);
}

#[test]
fn oauth_state_is_single_use() {
    let mut db = Database::new();
    let env = test_env();
    let creds = consumer();
    let session_id = register_session(&mut db, &env);
    let internal_state = initiate(&mut db, &creds, &env);

    let first = post_finish(
        &mut db,
        &FinishFlowForm { session_id: session_id.clone(), internal_state: internal_state.clone() },
    );
    assert_eq!(first.status, 200);

    let second = post_finish(
        &mut db,
        &FinishFlowForm { session_id, internal_state },
    );
    assert_eq!(second.status, 404);
    assert!(second.redirect_uri.is_none());
}

#[test]
fn finish_with_unknown_session_is_unauthorized() {
    let mut db = Database::new();
    let env = test_env();
    let creds = consumer();
    register_session(&mut db, &env);
    let internal_state = initiate(&mut db, &creds, &env);
    let finish = post_finish(
        &mut db,
        &FinishFlowForm { session_id: "stale".to_string(), internal_state },
    );
    assert_eq!(finish.status, 401);
}

#[test]
fn authorization_code_is_single_use() {
    let mut db = Database::new();
    let env = test_env();
    let creds = consumer();
    let session_id = register_session(&mut db, &env);
    let internal_state = initiate(&mut db, &creds, &env);
    post_finish(&mut db, &FinishFlowForm { session_id, internal_state });
    let code = db.oauth_authorization_codes.last().unwrap().authorization_code.clone();

    let exchange = |db: &mut Database| {
        post_token(
            db,
            &consumer(),
            &test_env(),
            Some("X"),
            Some("S"),
            Some("authorization_code"),
            Some(&code),
            Some("https://api.example.test/oauth/login"),
            None,
            500,
        )
    };
    assert!(matches!(exchange(&mut db), TokenOutcome::Issued(_)));
    assert!(matches!(exchange(&mut db), TokenOutcome::InvalidGrant));
}

#[test]
fn token_endpoint_rejections() {
    let mut db = Database::new();
    let env = test_env();
    let creds = consumer();

    match post_token(&mut db, &creds, &env, None, None, None, None, None, None, 0) {
        TokenOutcome::BadRequest(m) => assert_eq!(m, "Missing parameter 'client_id'"),
        _ => panic!("expected a 400"),
    }
    assert!(matches!(
        post_token(&mut db, &creds, &env, Some("Y"), Some("S"), Some("authorization_code"), None, None, None, 0),
        TokenOutcome::InvalidGrant
    ));
    assert!(matches!(
        post_token(&mut db, &creds, &env, Some("X"), Some("wrong"), Some("authorization_code"), None, None, None, 0),
        TokenOutcome::InvalidGrant
    ));
    match post_token(&mut db, &creds, &env, Some("X"), Some("S"), None, None, None, None, 0) {
        TokenOutcome::BadRequest(m) => assert_eq!(m, "Missing parameter 'grant_type'"),
        _ => panic!("expected a 400"),
    }
    match post_token(&mut db, &creds, &env, Some("X"), Some("S"), Some("password"), None, None, None, 0) {
        TokenOutcome::BadRequest(m) => assert_eq!(m, "Invalid value for parameter 'grant_type'"),
        _ => panic!("expected a 400"),
    }
    // a redirect_uri other than the fixed callback is an invalid grant
    assert!(matches!(
        post_token(
            &mut db,
            &creds,
            &env,
            Some("X"),
            Some("S"),
            Some("authorization_code"),
            Some("any-code"),
            Some("https://elsewhere.example/cb"),
            None,
            0
        ),
        TokenOutcome::InvalidGrant
    ));
    // an unknown refresh token is an invalid grant
    assert!(matches!(
        post_token(&mut db, &creds, &env, Some("X"), Some("S"), Some("refresh_token"), None, None, Some("nope"), 0),
        TokenOutcome::InvalidGrant
    ));
}

#[test]
fn initiate_rejections() {
    let mut db = Database::new();
    let env = test_env();
    let creds = consumer();

    let err = get_login(&mut db, &creds, &env, None, None, None, None, None, None).unwrap_err();
    assert_eq!(err, "Missing parameter 'client_id'");

    let err = get_login(&mut db, &creds, &env, Some("Y"), None, None, None, None, None).unwrap_err();
    assert_eq!(err, "Value of parameter 'client_id' is invalid.");

    let err = get_login(&mut db, &creds, &env, Some("X"), None, None, None, None, None).unwrap_err();
    assert_eq!(err, "Missing parameter 'redirect_uri'");

    let err = get_login(&mut db, &creds, &env, Some("X"), Some(REDIRECT), None, None, None, None)
        .unwrap_err();
    assert_eq!(err, "Missing parameter 'state'");

    let err = get_login(&mut db, &creds, &env, Some("X"), Some(REDIRECT), Some("s1"), None, None, None)
        .unwrap_err();
    assert_eq!(err, "Missing parameter 'scope'");

    let err = get_login(
        &mut db, &creds, &env, Some("X"), Some(REDIRECT), Some("s1"), Some("smarthome"), None, None,
    )
    .unwrap_err();
    assert_eq!(err, "Missing parameter 'response_type'");

    let err = get_login(
        &mut db, &creds, &env, Some("X"), Some(REDIRECT), Some("s1"), Some("smarthome"), Some("token"), None,
    )
    .unwrap_err();
    assert_eq!(
        err,
        "Value of parameter 'response_type' is invalid. Only the value of 'code' is supported."
    );

    let err = get_login(
        &mut db, &creds, &env, Some("X"), Some(REDIRECT), Some("s1"), Some("smarthome"), Some("code"), None,
    )
    .unwrap_err();
    assert_eq!(err, "Missing parameter 'locale'");

    let err = get_login(
        &mut db,
        &creds,
        &env,
        Some("X"),
        Some("https://evil.example/r/abc"),
        Some("s1"),
        Some("smarthome"),
        Some("code"),
        Some("en"),
    )
    .unwrap_err();
    assert_eq!(err, "Value of parameter 'redirect_uri' is invalid.");
    assert!(db.oauth_states.is_empty());
}

#[test]
fn sandbox_redirect_is_accepted() {
    let mut db = Database::new();
    let env = test_env();
    let creds = consumer();
    let url = get_login(
        &mut db,
        &creds,
        &env,
        Some("X"),
        Some("https://oauth-redirect-sandbox.googleusercontent.com/r/abc"),
        Some("s2"),
        Some("smarthome"),
        Some("code"),
        Some("en"),
    );
    assert!(url.is_ok());
    assert_eq!(db.oauth_states.len(), 1);
}

#[test]
fn oauth_credentials_generated_once_then_reused() {
    let mut db = Database::new();
    let first = get_oauth_credentials(&mut db);
    assert_eq!(first.client_id.len(), 16);
    assert_eq!(first.client_secret.len(), 32);
    assert!(matches!(first.identifier, OAuthIdentifier::GOOGLE));
    assert_eq!(db.oauth_credentials.len(), 1);

    let second = get_oauth_credentials(&mut db);
    assert_eq!(second.client_id, first.client_id);
    assert_eq!(second.client_secret, first.client_secret);
    assert_eq!(db.oauth_credentials.len(), 1);
}

#[test]
fn at_most_one_authorization_code_per_account() {
    let mut db = Database::new();
    let env = test_env();
    let creds = consumer();
    let session_id = register_session(&mut db, &env);

    let first_state = initiate(&mut db, &creds, &env);
    post_finish(
        &mut db,
        &FinishFlowForm { session_id: session_id.clone(), internal_state: first_state },
    );
    let first_code = db.oauth_authorization_codes.last().unwrap().authorization_code.clone();

    let second_state = initiate(&mut db, &creds, &env);
    post_finish(&mut db, &FinishFlowForm { session_id, internal_state: second_state });
    let second_code = db.oauth_authorization_codes.last().unwrap().authorization_code.clone();

    // consenting again replaced the outstanding code
    assert_eq!(db.oauth_authorization_codes.len(), 1);
    assert_ne!(first_code, second_code);

    // the replaced code can no longer be exchanged
    let outcome = post_token(
        &mut db,
        &creds,
        &env,
        Some("X"),
        Some("S"),
        Some("authorization_code"),
        Some(&first_code),
        Some("https://api.example.test/oauth/login"),
        None,
        500,
    );
    assert!(matches!(outcome, TokenOutcome::InvalidGrant));
}
