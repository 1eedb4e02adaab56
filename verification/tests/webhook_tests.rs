use connected_home::database::{Database, Grant};
use connected_home::endpoints::webhook::{parse_bearer_token, webhook_authenticate, BearerAuth};

fn db_with_grant(expiry: i64) -> Database {
    let mut db = Database::new();
    db.oauth_grants.push(Grant {
        user_id: "user-1".to_string(),
        access_token: "tok123".to_string(),
        refresh_token: "refresh123".to_string(),
        expiry,
    });
    db
}

#[test]
fn bearer_accepted_before_expiry_rejected_after() {
    let db = db_with_grant(5000);
    match webhook_authenticate(&db, Some("Bearer tok123"), 4999) {
        BearerAuth::Authenticated(user) => assert_eq!(user, "user-1"),
        _ => panic!("a token before its expiry is accepted"),
    }
    assert!(matches!(webhook_authenticate(&db, Some("Bearer tok123"), 5000), BearerAuth::Unauthorized));
    assert!(matches!(webhook_authenticate(&db, Some("Bearer tok123"), 9999), BearerAuth::Unauthorized));
}

#[test]
fn unknown_token_is_unauthorized() {
    let db = db_with_grant(5000);
    assert!(matches!(webhook_authenticate(&db, Some("Bearer other"), 0), BearerAuth::Unauthorized));
}

#[test]
fn malformed_authorization_headers_are_bad_requests() {
    let db = db_with_grant(5000);
    assert!(matches!(webhook_authenticate(&db, None, 0), BearerAuth::BadRequest));
    assert!(matches!(webhook_authenticate(&db, Some("Token tok123"), 0), BearerAuth::BadRequest));
    assert!(matches!(webhook_authenticate(&db, Some("Bearer"), 0), BearerAuth::BadRequest));
    assert!(matches!(webhook_authenticate(&db, Some("Bearer a b"), 0), BearerAuth::BadRequest));
}

#[test]
fn bearer_token_parsing() {
    assert_eq!(parse_bearer_token("Bearer abc").as_deref(), Some("abc"));
    assert_eq!(parse_bearer_token("Bearer ").as_deref(), Some(""));
    assert!(parse_bearer_token("Bearer a b").is_none());
    assert!(parse_bearer_token("bearer abc").is_none());
    assert!(parse_bearer_token("Bearer").is_none());
    assert!(parse_bearer_token("").is_none());
}
