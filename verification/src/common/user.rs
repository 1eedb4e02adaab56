//! Resolving a session to the account that owns it.

use vstd::prelude::*;

verus! {

use crate::database::Database;
use crate::database::by_session;
use crate::database::find_first;

/// The account data an endpoint needs once a session is resolved.
#[derive(Debug)]
pub struct User {
    pub user_id: String,
}

/// Gets the `User` a session belongs to: `None` exactly when no account
/// carries the session.
pub fn get_user(session_id: &str, db: &Database) -> (r: Option<User>)
    ensures
        match find_first(db.users@, by_session(session_id@)) {
            Some(a) => r matches Some(u) && u.user_id@ == a.user_id@,
            None => r is None,
        },
{
    match db.find_account_by_session(session_id) {
        Some(a) => Some(User { user_id: a.user_id.clone() }),
        None => None,
    }
}

} // verus!
