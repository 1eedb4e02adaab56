//! Storing and retrieving per-service credentials, and the services an
//! account has linked.
//!
//! Stored usernames and passwords are reversible — the server must present
//! them to the third-party service on the user's behalf — so they are
//! encrypted under the process-wide pepper and base64-encoded for the text
//! column.

use vstd::prelude::*;

verus! {

use crate::crypto::mc_decrypt;
use crate::crypto::mc_decrypt_of;
use crate::crypto::mc_encrypt;
use crate::crypto::mc_encrypt_of;
use crate::database::Database;
use crate::database::PasswordCredentialRow;
use crate::database::ServiceRow;
use crate::database::creds_by_service;
use crate::database::find_first;
use crate::database::lemma_remove_all_push;
use crate::database::remove_all;
use crate::types::service::ServiceType;

/// A plaintext username/password pair for a third-party service.
#[derive(Debug)]
pub struct Credentials {
    pub username: String,
    pub password: String,
}

/// Stored credentials that could not be decrypted: the ciphertext was
/// corrupted or written under another pepper.
#[derive(Clone, Copy, PartialEq, Eq, Structural, Debug)]
pub struct DecryptError;

/// The service rows owned by one account, in store order.
pub open spec fn owned_services(rows: Seq<ServiceRow>, user_id: Seq<char>) -> Seq<ServiceRow> {
    remove_all(rows, other_user(user_id))
}

pub open spec fn other_user(user_id: Seq<char>) -> spec_fn(ServiceRow) -> bool {
    |x: ServiceRow| x.user_id@ != user_id
}

/// Sets the username/password pair for a service: both are encrypted under
/// the pepper and appended to the credentials table, and decrypting the
/// stored strings yields the originals back.
pub fn set_password_credentials(
    db: &mut Database,
    pepper: &str,
    service_id: String,
    credentials: Credentials,
)
    ensures
        ({
            let rows = final(db).services_password_credentials@;
            let old_rows = old(db).services_password_credentials@;
            &&& rows.len() == old_rows.len() + 1
            &&& rows.subrange(0, old_rows.len() as int) == old_rows
            &&& rows.last().service_id@ == service_id@
            &&& rows.last().username@ == mc_encrypt_of(pepper@, credentials.username@)
            &&& rows.last().password@ == mc_encrypt_of(pepper@, credentials.password@)
            &&& mc_decrypt_of(pepper@, rows.last().username@) == Some(credentials.username@)
            &&& mc_decrypt_of(pepper@, rows.last().password@) == Some(credentials.password@)
        }),
        *final(db) == (Database {
            services_password_credentials: final(db).services_password_credentials,
            ..*old(db)
        }),
{
    let username_encrypted_base64 = mc_encrypt(pepper, credentials.username.as_str());
    let password_encrypted_base64 = mc_encrypt(pepper, credentials.password.as_str());
    let row = PasswordCredentialRow {
        service_id,
        username: username_encrypted_base64,
        password: password_encrypted_base64,
    };
    db.services_password_credentials.push(row);
    proof {
        assert(db.services_password_credentials@.subrange(
            0,
            old(db).services_password_credentials@.len() as int,
        ) =~= old(db).services_password_credentials@);
    }
}

/// Gets the username/password pair stored for a service. A missing row is a
/// valid outcome (`Ok(None)`); a row whose ciphertext does not decrypt is a
/// distinct error, never silently wrong plaintext.
pub fn get_password_credentials(db: &Database, pepper: &str, service_id: &str) -> (r: Result<
    Option<Credentials>,
    DecryptError,
>)
    ensures
        match find_first(db.services_password_credentials@, creds_by_service(service_id@)) {
            None => r == Ok::<Option<Credentials>, DecryptError>(None),
            Some(row) => {
                if mc_decrypt_of(pepper@, row.username@) is Some && mc_decrypt_of(
                    pepper@,
                    row.password@,
                ) is Some {
                    r matches Ok(Some(c)) && Some(c.username@) == mc_decrypt_of(
                        pepper@,
                        row.username@,
                    ) && Some(c.password@) == mc_decrypt_of(pepper@, row.password@)
                } else {
                    r == Err::<Option<Credentials>, DecryptError>(DecryptError)
                }
            },
        },
{
    let row = match db.find_password_credentials(service_id) {
        None => {
            return Ok(None);
        },
        Some(row) => row,
    };
    let username_decrypted = match mc_decrypt(pepper, row.username.as_str()) {
        Some(u) => u,
        None => {
            return Err(DecryptError);
        },
    };
    let password_decrypted = match mc_decrypt(pepper, row.password.as_str()) {
        Some(p) => p,
        None => {
            return Err(DecryptError);
        },
    };
    Ok(Some(Credentials { username: username_decrypted, password: password_decrypted }))
}

/// Creates a service owned by an account.
pub fn create_service(
    db: &mut Database,
    user_id: String,
    service_id: String,
    service_type: ServiceType,
)
    ensures
        final(db).services@ == old(db).services@.push(
            (ServiceRow { user_id, service_id, identifier: service_type }),
        ),
        *final(db) == (Database { services: final(db).services, ..*old(db) }),
{
    db.services.push(ServiceRow { user_id, service_id, identifier: service_type });
}

/// Gets every service an account owns: each service id with its service
/// type, in store order.
#[verifier::loop_isolation(false)]
pub fn get_services(db: &Database, user_id: &str) -> (r: Vec<(String, ServiceType)>)
    ensures
        ({
            let owned = owned_services(db.services@, user_id@);
            &&& r@.len() == owned.len()
            &&& forall|i: int|
                0 <= i < owned.len() ==> (#[trigger] r@[i]).0@ == owned[i].service_id@ && r@[i].1
                    == owned[i].identifier
        }),
{
    let ghost p = other_user(user_id@);
    let mut result: Vec<(String, ServiceType)> = Vec::new();
    let mut i: usize = 0;
    while i < db.services.len()
        invariant
            i <= db.services@.len(),
            ({
                let owned = owned_services(db.services@.subrange(0, i as int), user_id@);
                &&& result@.len() == owned.len()
                &&& forall|j: int|
                    0 <= j < owned.len() ==> (#[trigger] result@[j]).0@ == owned[j].service_id@
                        && result@[j].1 == owned[j].identifier
            }),
        decreases db.services@.len() - i,
    {
        proof {
            assert(db.services@.subrange(0, i + 1) =~= db.services@.subrange(0, i as int).push(
                db.services@[i as int],
            ));
            lemma_remove_all_push(db.services@.subrange(0, i as int), p, db.services@[i as int]);
        }
        let row = &db.services[i];
        if crate::text::str_eq(row.user_id.as_str(), user_id) {
            result.push((row.service_id.clone(), row.identifier));
        }
        i = i + 1;
    }
    proof {
        assert(db.services@.subrange(0, db.services@.len() as int) =~= db.services@);
    }
    result
}

} // verus!
