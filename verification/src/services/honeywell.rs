//! The decision logic around the third-party credential validator.
//!
//! The validator itself is an outbound HTTPS login attempt performed by the
//! surrounding server; the functions here build its request, read its
//! outcome, and say exactly what each outcome means.

use vstd::prelude::*;

verus! {

use crate::common::service::Credentials;
use crate::types::honeywell::Content;
use crate::types::honeywell::LoginRequest;

/// A user of the third-party service, as established by a successful login.
#[derive(Debug)]
pub struct HoneywellUser {
    pub access_token: String,
    pub email: String,
    pub username: String,
}

/// Builds the login request body for a credential pair, with the fixed
/// field values the third-party endpoint expects.
pub fn login_request(credentials: Credentials) -> (r: LoginRequest)
    ensures
        r.email_address == credentials.username,
        r.password == credentials.password,
        r.is_service_status_returned == true,
        r.api_active == true,
        r.api_down == false,
        r.redirect_uri@.len() == 0,
        r.events@.len() == 0,
        r.form_errors@.len() == 0,
{
    LoginRequest {
        email_address: credentials.username,
        password: credentials.password,
        is_service_status_returned: true,
        api_active: true,
        api_down: false,
        redirect_uri: String::new(),
        events: Vec::new(),
        form_errors: Vec::new(),
    }
}

/// Reads the outcome of a third-party login attempt: the login succeeded
/// exactly when the response set the session cookie and carried account
/// content, and the resulting user holds the cookie as access token.
pub fn login_outcome(session_cookie: Option<String>, content: Option<Content>) -> (r: Option<
    HoneywellUser,
>)
    ensures
        session_cookie is None ==> r is None,
        content is None ==> r is None,
        session_cookie is Some && content is Some ==> (r matches Some(u) && u.access_token
            == session_cookie.unwrap() && u.email == content.unwrap().username && u.username
            == content.unwrap().display_name),
{
    let session = match session_cookie {
        Some(s) => s,
        None => {
            return None;
        },
    };
    let content_unwrapped = match content {
        Some(c) => c,
        None => {
            return None;
        },
    };
    Some(
        HoneywellUser {
            access_token: session,
            email: content_unwrapped.username,
            username: content_unwrapped.display_name,
        },
    )
}

/// How a credential-validation attempt ended.
#[derive(Clone, Copy, PartialEq, Eq, Structural, Debug)]
pub enum CredentialCheck {
    /// The validator could not be reached or answered malformed.
    Error,
    /// The validator answered, and rejected the credentials.
    Rejected,
    /// The validator accepted the credentials.
    Accepted,
}

/// Classifies the result of a test login: a transport error, a rejection,
/// or an accepted credential pair.
pub fn credential_check_of(login: Result<Option<()>, ()>) -> (r: CredentialCheck)
    ensures
        login is Err ==> r == CredentialCheck::Error,
        login matches Ok(o) && o is None ==> r == CredentialCheck::Rejected,
        login matches Ok(o) && o is Some ==> r == CredentialCheck::Accepted,
{
    match login {
        Err(()) => CredentialCheck::Error,
        Ok(None) => CredentialCheck::Rejected,
        Ok(Some(_)) => CredentialCheck::Accepted,
    }
}

} // verus!
