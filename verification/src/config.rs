//! The services catalog and the consumer's OAuth client credentials.

use vstd::prelude::*;

verus! {

use crate::appdata::OAuthCredentials;
use crate::appdata::OAuthIdentifier;
use crate::crypto::is_token;
use crate::crypto::random_alphanumeric;
use crate::database::Database;
use crate::database::creds_by_identifier;
use crate::database::find_first;
use crate::types::service::LoginMethod;
use crate::types::service::ServiceType;

/// One entry of the read-only services catalog: a service type the server
/// can link, loaded from configuration at startup.
#[derive(Debug)]
pub struct ServicesConfig {
    pub name: String,
    pub identifier: ServiceType,
    pub icon: String,
    pub requires_login: bool,
    pub login_method: LoginMethod,
}

impl ServicesConfig {
    /// An exact copy of this catalog entry.
    pub fn duplicate(&self) -> (r: ServicesConfig)
        ensures
            r == *self,
    {
        ServicesConfig {
            name: self.name.clone(),
            identifier: self.identifier,
            icon: self.icon.clone(),
            requires_login: self.requires_login,
            login_method: self.login_method,
        }
    }
}

/// An exact copy of the catalog.
#[verifier::loop_isolation(false)]
pub fn clone_configs(configs: &Vec<ServicesConfig>) -> (r: Vec<ServicesConfig>)
    ensures
        r@ == configs@,
{
    let mut result: Vec<ServicesConfig> = Vec::new();
    let mut i: usize = 0;
    while i < configs.len()
        invariant
            i <= configs@.len(),
            result@ =~= configs@.subrange(0, i as int),
        decreases configs@.len() - i,
    {
        result.push(configs[i].duplicate());
        i = i + 1;
    }
    proof {
        assert(configs@.subrange(0, configs@.len() as int) =~= configs@);
    }
    result
}

/// Gets the consumer's client credentials, generating and persisting a pair
/// on first run: the stored row is returned unchanged when present, and
/// exactly one row is added when absent.
pub fn get_oauth_credentials(db: &mut Database) -> (r: OAuthCredentials)
    ensures
        r.identifier == OAuthIdentifier::GOOGLE,
        match find_first(old(db).oauth_credentials@, creds_by_identifier(OAuthIdentifier::GOOGLE)) {
            Some(c) => r == c && *final(db) == *old(db),
            None => {
                &&& is_token(r.client_id@, 16)
                &&& is_token(r.client_secret@, 32)
                &&& final(db).oauth_credentials@ == old(db).oauth_credentials@.push(r)
                &&& *final(db) == (Database {
                    oauth_credentials: final(db).oauth_credentials,
                    ..*old(db)
                })
            },
        },
{
    let found: Option<OAuthCredentials> = match db.find_oauth_credentials(
        OAuthIdentifier::GOOGLE,
    ) {
        Some(c) => Some(
            OAuthCredentials {
                client_id: c.client_id.clone(),
                client_secret: c.client_secret.clone(),
                identifier: c.identifier,
            },
        ),
        None => None,
    };
    match found {
        Some(c) => c,
        None => {
            let client_id = random_alphanumeric(16);
            let client_secret = random_alphanumeric(32);
            let row = OAuthCredentials {
                client_id,
                client_secret,
                identifier: OAuthIdentifier::GOOGLE,
            };
            let returned = OAuthCredentials {
                client_id: row.client_id.clone(),
                client_secret: row.client_secret.clone(),
                identifier: row.identifier,
            };
            db.oauth_credentials.push(row);
            returned
        },
    }
}

} // verus!
