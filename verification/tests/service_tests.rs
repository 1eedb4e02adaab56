use connected_home::common::service::{
    create_service, get_password_credentials, get_services, set_password_credentials, Credentials,
    DecryptError,
};
use connected_home::database::{Database, PasswordCredentialRow};
use connected_home::types::service::{LoginMethod, ServiceType};

#[test]
fn stored_credentials_decrypt_to_the_original() {
    let mut db = Database::new();
    let pepper = "service-pepper";
    set_password_credentials(
        &mut db,
        pepper,
        "service-one".to_string(),
        Credentials { username: "user@example.test".to_string(), password: "p4ssw0rd!".to_string() },
    );
    // the stored strings are ciphertext, not the plaintext
    assert_eq!(db.services_password_credentials.len(), 1);
    assert_ne!(db.services_password_credentials[0].username, "user@example.test");
    assert_ne!(db.services_password_credentials[0].password, "p4ssw0rd!");

    let fetched = get_password_credentials(&db, pepper, "service-one").unwrap().unwrap();
    assert_eq!(fetched.username, "user@example.test");
    assert_eq!(fetched.password, "p4ssw0rd!");
}

#[test]
fn missing_credentials_are_none_not_an_error() {
    let db = Database::new();
    let fetched = get_password_credentials(&db, "pepper", "absent").unwrap();
    assert!(fetched.is_none());
}

#[test]
fn corrupted_ciphertext_fails_distinctly() {
    let mut db = Database::new();
    db.services_password_credentials.push(PasswordCredentialRow {
        service_id: "service-bad".to_string(),
        username: "@@@ not ciphertext @@@".to_string(),
        password: "@@@ not ciphertext @@@".to_string(),
    });
    let fetched = get_password_credentials(&db, "pepper", "service-bad");
    assert!(matches!(fetched, Err(DecryptError)));
}

#[test]
fn wrong_pepper_fails_distinctly() {
    let mut db = Database::new();
    set_password_credentials(
        &mut db,
        "pepper-one",
        "svc".to_string(),
        Credentials { username: "u".to_string(), password: "p".to_string() },
    );
    let fetched = get_password_credentials(&db, "pepper-two", "svc");
    // decrypting under another key must not return silent wrong plaintext
    match fetched {
        Err(DecryptError) => {}
        Ok(Some(c)) => {
            assert_ne!((c.username.as_str(), c.password.as_str()), ("u", "p"));
        }
        Ok(None) => panic!("the row exists"),
    }
}

#[test]
fn get_services_lists_only_the_owner() {
    let mut db = Database::new();
    create_service(&mut db, "user-a".to_string(), "svc-1".to_string(), ServiceType::HONEYWELL);
    create_service(&mut db, "user-b".to_string(), "svc-2".to_string(), ServiceType::HONEYWELL);
    create_service(&mut db, "user-a".to_string(), "svc-3".to_string(), ServiceType::HONEYWELL);

    let owned = get_services(&db, "user-a");
    assert_eq!(owned.len(), 2);
    assert_eq!(owned[0].0, "svc-1");
    assert_eq!(owned[1].0, "svc-3");
    assert!(matches!(owned[0].1, ServiceType::HONEYWELL));

    let none = get_services(&db, "user-c");
    assert!(none.is_empty());
}

#[test]
fn service_type_identifier_round_trip() {
    assert_eq!(ServiceType::HONEYWELL.as_str(), "HONEYWELL");
    assert_eq!(ServiceType::from_str("HONEYWELL"), Ok(ServiceType::HONEYWELL));
    assert_eq!(ServiceType::from_str("honeywell"), Err(()));
    assert_eq!(ServiceType::from_str(""), Err(()));
}

#[test]
fn login_method_identifier() {
    assert_eq!(LoginMethod::PASSWORD.as_str(), "PASSWORD");
}
