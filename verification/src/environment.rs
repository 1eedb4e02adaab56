//! The configuration the server is started with.

use vstd::prelude::*;

verus! {

/// The configuration values the server requires, built once at startup and
/// passed by reference to every component that needs one of them.
#[derive(Debug)]
pub struct Environment {
    /// The password pepper to be used when hashing passwords and when
    /// encrypting stored service credentials.
    pub password_pepper: String,
    /// The FQDN or IP of the relational store's server.
    pub mysql_host: String,
    /// The schema to use in the relational store.
    pub mysql_database: String,
    /// The username to use when authenticating with the relational store.
    pub mysql_username: String,
    /// The password to use when authenticating with the relational store.
    pub mysql_password: String,
    /// The host of this server, without a trailing slash.
    pub host: String,
    /// The project identifier of the voice-assistant consumer.
    pub assistant_project_id: String,
}

} // verus!
