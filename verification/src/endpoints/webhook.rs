//! Bearer-token validation for the fulfillment webhook.

use vstd::prelude::*;

verus! {

use crate::database::Database;
use crate::database::find_first;
use crate::database::grant_by_access;
use crate::text::view_opt;
use vstd::string::StrSliceExecFns;

/// How a webhook request is authenticated.
#[derive(Debug)]
pub enum BearerAuth {
    /// The Authorization header is missing or not of the form
    /// `Bearer {token}`.
    BadRequest,
    /// The token is unknown or expired.
    Unauthorized,
    /// The request acts for this account.
    Authenticated(String),
}

/// The token of a well-formed `Bearer {token}` Authorization header: the
/// word `Bearer`, one space, and a token without spaces.
pub open spec fn bearer_token_of(header: Seq<char>) -> Option<Seq<char>> {
    if header.len() >= 7 && header.subrange(0, 7) == "Bearer "@ && (forall|i: int|
        7 <= i < header.len() ==> header[i] != ' ') {
        Some(header.subrange(7, header.len() as int))
    } else {
        None
    }
}

/// Extracts the bearer token from an Authorization header value.
#[verifier::loop_isolation(false)]
pub fn parse_bearer_token(header: &str) -> (r: Option<String>)
    ensures
        match r {
            Some(t) => bearer_token_of(header@) == Some(t@),
            None => bearer_token_of(header@) is None,
        },
{
    proof {
        reveal_strlit("Bearer ");
    }
    if !crate::text::str_starts_with(header, "Bearer ") {
        return None;
    }
    let n: usize = header.unicode_len();
    let rest = header.substring_char(7, n);
    let m: usize = rest.unicode_len();
    let mut i: usize = 0;
    while i < m
        invariant
            i <= m,
            m == rest@.len(),
            forall|j: int| 0 <= j < i ==> rest@[j] != ' ',
        decreases m - i,
    {
        if rest.get_char(i) == ' ' {
            assert(header@[7 + i] == ' ');
            return None;
        }
        i = i + 1;
    }
    proof {
        assert forall|j: int| 7 <= j < header@.len() implies header@[j] != ' ' by {
            assert(rest@[j - 7] != ' ');
        }
    }
    Some(rest.to_owned())
}

/// Validates the Authorization header of a webhook call against the grant
/// store: the bearer token must name a grant whose expiry lies after `now`.
/// A grant is accepted while `now < expiry` and rejected once
/// `now >= expiry`.
pub fn webhook_authenticate(db: &Database, auth_header: Option<&str>, now: i64) -> (r: BearerAuth)
    ensures
        ({
            let h = view_opt(auth_header);
            if h is None || bearer_token_of(h.unwrap()) is None {
                r == BearerAuth::BadRequest
            } else {
                match find_first(db.oauth_grants@, grant_by_access(bearer_token_of(
                    h.unwrap(),
                ).unwrap())) {
                    None => r == BearerAuth::Unauthorized,
                    Some(g) => if now >= g.expiry {
                        r == BearerAuth::Unauthorized
                    } else {
                        r matches BearerAuth::Authenticated(u) && u@ == g.user_id@
                    },
                }
            }
        }),
{
    let header = match auth_header {
        Some(h) => h,
        None => {
            return BearerAuth::BadRequest;
        },
    };
    let access_token = match parse_bearer_token(header) {
        Some(t) => t,
        None => {
            return BearerAuth::BadRequest;
        },
    };
    let (user_id, expiry) = match db.find_grant_by_access_token(access_token.as_str()) {
        Some(g) => (g.user_id.clone(), g.expiry),
        None => {
            return BearerAuth::Unauthorized;
        },
    };
    if now >= expiry {
        return BearerAuth::Unauthorized;
    }
    BearerAuth::Authenticated(user_id)
}

} // verus!
