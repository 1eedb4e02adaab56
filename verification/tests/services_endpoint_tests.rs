use connected_home::common::service::get_password_credentials;
use connected_home::config::ServicesConfig;
use connected_home::database::Database;
use connected_home::endpoints::auth::{post_register, LoginForm};
use connected_home::endpoints::services::{
    post_add_begin, post_add_finish, post_get, AddServiceStep, GetServicesOutcome,
    GetServicesRequest,
};
use connected_home::environment::Environment;
use connected_home::services::honeywell::{
    credential_check_of, login_outcome, login_request, CredentialCheck,
};
use connected_home::common::service::Credentials;
use connected_home::types::honeywell::Content;
use connected_home::types::service::{LoginMethod, PasswordProtectedService, Service, ServiceType};

fn test_env() -> Environment {
    Environment {
        password_pepper: "svc-pepper".to_string(),
        mysql_host: "localhost".to_string(),
        mysql_database: "smarthome".to_string(),
        mysql_username: "smarthome".to_string(),
        mysql_password: "db-password".to_string(),
        host: "https://api.example.test".to_string(),
        assistant_project_id: "project".to_string(),
    }
}

fn register_session(db: &mut Database, env: &Environment) -> String {
    let form = LoginForm {
        email: base64::encode("owner@example.test"),
        password: base64::encode("pw"),
    };
    post_register(db, env, &form).unwrap().session_id.unwrap()
}

fn honeywell_payload() -> PasswordProtectedService {
    PasswordProtectedService {
        service_type: ServiceType::HONEYWELL,
        username: "hw-user@example.test".to_string(),
        password: "hw-secret".to_string(),
    }
}

fn catalog() -> Vec<ServicesConfig> {
    vec![ServicesConfig {
        name: "Honeywell".to_string(),
        identifier: ServiceType::HONEYWELL,
        icon: "honeywell.png".to_string(),
        requires_login: true,
        login_method: LoginMethod::PASSWORD,
    }]
}

#[test]
fn adding_a_service_with_accepted_credentials() {
    let mut db = Database::new();
    let env = test_env();
    let session = register_session(&mut db, &env);

    let service = Service { service_type: ServiceType::HONEYWELL, has_password_auth: true };
    let user = match post_add_begin(&db, &session, &service) {
        AddServiceStep::NeedsCredentialCheck(u) => u,
        AddServiceStep::Denied(_) => panic!("the session is valid"),
    };

    let resp = post_add_finish(
        &mut db,
        "svc-pepper",
        &user,
        &honeywell_payload(),
        CredentialCheck::Accepted,
    );
    assert_eq!(resp.status, 200);
    let service_id = resp.service_id.unwrap();
    assert_eq!(service_id.len(), 64);
    assert!(service_id.chars().all(|c| c.is_ascii_alphanumeric()));

    // the same username/password fetched back equals the original plaintext
    let creds = get_password_credentials(&db, "svc-pepper", &service_id).unwrap().unwrap();
    assert_eq!(creds.username, "hw-user@example.test");
    assert_eq!(creds.password, "hw-secret");
}

#[test]
fn validator_outcomes_map_to_distinct_statuses() {
    let mut db = Database::new();
    let env = test_env();
    let session = register_session(&mut db, &env);
    let service = Service { service_type: ServiceType::HONEYWELL, has_password_auth: true };
    let user = match post_add_begin(&db, &session, &service) {
        AddServiceStep::NeedsCredentialCheck(u) => u,
        AddServiceStep::Denied(_) => panic!("the session is valid"),
    };

    let err = post_add_finish(&mut db, "svc-pepper", &user, &honeywell_payload(), CredentialCheck::Error);
    assert_eq!(err.status, 600);
    assert!(err.service_id.is_none());

    let rejected =
        post_add_finish(&mut db, "svc-pepper", &user, &honeywell_payload(), CredentialCheck::Rejected);
    assert_eq!(rejected.status, 700);
    assert!(rejected.service_id.is_none());

    assert!(db.services.is_empty());
    assert!(db.services_password_credentials.is_empty());
}

#[test]
fn adding_a_service_without_a_session_is_unauthorized() {
    let db = Database::new();
    let service = Service { service_type: ServiceType::HONEYWELL, has_password_auth: true };
    match post_add_begin(&db, "no-session", &service) {
        AddServiceStep::Denied(resp) => {
            assert_eq!(resp.status, 401);
            assert!(resp.service_id.is_none());
        }
        AddServiceStep::NeedsCredentialCheck(_) => panic!("the session is unknown"),
    }
}

#[test]
fn get_services_returns_catalog_or_owned() {
    let mut db = Database::new();
    let env = test_env();
    let session = register_session(&mut db, &env);
    let configs = catalog();

    // without a session: unauthorized
    let denied = post_get(
        &db,
        &configs,
        &GetServicesRequest { session_id: "bad".to_string(), only_owned: false },
    );
    match denied {
        GetServicesOutcome::Unauthorized(resp) => {
            assert_eq!(resp.status, 401);
            assert!(resp.services.is_none());
        }
        _ => panic!("the session is unknown"),
    }

    // the full catalog
    let all = post_get(
        &db,
        &configs,
        &GetServicesRequest { session_id: session.clone(), only_owned: false },
    );
    match all {
        GetServicesOutcome::All(resp) => {
            assert_eq!(resp.status, 200);
            let list = resp.services.unwrap();
            assert_eq!(list.len(), 1);
            assert_eq!(list[0].name, "Honeywell");
        }
        _ => panic!("expected the catalog"),
    }

    // nothing owned yet
    let owned = post_get(
        &db,
        &configs,
        &GetServicesRequest { session_id: session.clone(), only_owned: true },
    );
    match owned {
        GetServicesOutcome::Owned(resp) => {
            assert_eq!(resp.status, 200);
            assert!(resp.services.is_empty());
        }
        _ => panic!("expected the owned list"),
    }

    // link one service, then it is listed joined with its catalog entry
    let service = Service { service_type: ServiceType::HONEYWELL, has_password_auth: true };
    let user = match post_add_begin(&db, &session, &service) {
        AddServiceStep::NeedsCredentialCheck(u) => u,
        AddServiceStep::Denied(_) => panic!("the session is valid"),
    };
    let added =
        post_add_finish(&mut db, "svc-pepper", &user, &honeywell_payload(), CredentialCheck::Accepted);
    let service_id = added.service_id.unwrap();

    let owned = post_get(
        &db,
        &configs,
        &GetServicesRequest { session_id: session, only_owned: true },
    );
    match owned {
        GetServicesOutcome::Owned(resp) => {
            assert_eq!(resp.status, 200);
            assert_eq!(resp.services.len(), 1);
            assert_eq!(resp.services[0].service_id, service_id);
            assert_eq!(resp.services[0].config.name, "Honeywell");
            assert!(matches!(resp.services[0].config.identifier, ServiceType::HONEYWELL));
        }
        _ => panic!("expected the owned list"),
    }
}

#[test]
fn honeywell_login_outcome_needs_cookie_and_content() {
    let content = Content { username: "hw@example.test".to_string(), display_name: "HW".to_string() };
    assert!(login_outcome(None, Some(content)).is_none());
    assert!(login_outcome(Some("cookie".to_string()), None).is_none());

    let content = Content { username: "hw@example.test".to_string(), display_name: "HW".to_string() };
    let user = login_outcome(Some("cookie".to_string()), Some(content)).unwrap();
    assert_eq!(user.access_token, "cookie");
    assert_eq!(user.email, "hw@example.test");
    assert_eq!(user.username, "HW");
}

#[test]
fn credential_check_classification() {
    assert!(matches!(credential_check_of(Err(())), CredentialCheck::Error));
    assert!(matches!(credential_check_of(Ok(None)), CredentialCheck::Rejected));
    assert!(matches!(credential_check_of(Ok(Some(()))), CredentialCheck::Accepted));
}

#[test]
fn honeywell_login_request_shape() {
    let req = login_request(Credentials {
        username: "hw@example.test".to_string(),
        password: "pw".to_string(),
    });
    assert_eq!(req.email_address, "hw@example.test");
    assert_eq!(req.password, "pw");
    assert!(req.is_service_status_returned);
    assert!(req.api_active);
    assert!(!req.api_down);
    assert!(req.redirect_uri.is_empty());
    assert!(req.events.is_empty());
    assert!(req.form_errors.is_empty());
}
