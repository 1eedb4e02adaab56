//! The request and response shapes of the third-party login endpoint used
//! to validate service credentials.

use vstd::prelude::*;

verus! {

/// The body the third-party login endpoint answers with.
#[derive(Debug)]
pub struct LoginResponse {
    pub content: Option<Content>,
    pub errors: Option<Vec<String>>,
}

/// The account data inside a successful third-party login response.
#[derive(Debug)]
pub struct Content {
    pub username: String,
    pub display_name: String,
}

/// The body sent to the third-party login endpoint.
#[derive(Debug)]
pub struct LoginRequest {
    pub email_address: String,
    pub password: String,
    pub is_service_status_returned: bool,
    pub api_active: bool,
    pub api_down: bool,
    pub redirect_uri: String,
    pub events: Vec<String>,
    pub form_errors: Vec<String>,
}

} // verus!
