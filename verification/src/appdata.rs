//! Credentials of the external OAuth consumers this server answers to.

use vstd::prelude::*;

verus! {

/// The client credentials issued to one external OAuth consumer.
#[derive(Debug)]
pub struct OAuthCredentials {
    pub client_id: String,
    pub client_secret: String,
    pub identifier: OAuthIdentifier,
}

/// The external consumers known to the server.
#[derive(Clone, Copy, PartialEq, Eq, Structural, Debug)]
pub enum OAuthIdentifier {
    GOOGLE,
}

} // verus!
