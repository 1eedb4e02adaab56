//! Account registration, login and session lookup.
//!
//! Email and password arrive base64-encoded. A lookup miss and a wrong
//! password produce the same response, so the endpoints never reveal whether
//! an email is registered.

use vstd::prelude::*;

verus! {

use crate::common::user::User;
use crate::common::user::get_user;
use crate::crypto::decode_b64_text;
use crate::crypto::decoded_text;
use crate::crypto::hash_password;
use crate::crypto::is_token;
use crate::crypto::lemma_token_is_ascii;
use crate::crypto::password_hash_of;
use crate::crypto::random_alphanumeric;
use crate::database::Account;
use crate::database::Database;
use crate::database::by_email;
use crate::database::by_session;
use crate::database::find_first;
use crate::database::lemma_find_first_found;
use crate::database::lemma_find_first_none;
use crate::database::lemma_find_first_push;
use crate::database::session_updated;
use crate::environment::Environment;
use vstd::string::StringExecFns;

/// The form body of the login and register endpoints: email and password,
/// each base64-encoded UTF-8.
#[derive(Debug)]
pub struct LoginForm {
    pub email: String,
    pub password: String,
}

/// The response body of the login and register endpoints.
#[derive(Debug)]
pub struct LoginResponse {
    pub status: i16,
    pub status_message: Option<String>,
    pub session_id: Option<String>,
}

impl LoginResponse {
    pub fn new(status: i16, status_message: Option<String>, session_id: Option<String>) -> (r:
        LoginResponse)
        ensures
            r.status == status,
            r.status_message == status_message,
            r.session_id == session_id,
    {
        LoginResponse { status, status_message, session_id }
    }
}

/// The form body of the session endpoint.
#[derive(Debug)]
pub struct SessionForm {
    pub session_id: String,
}

/// The response body of the session endpoint.
#[derive(Debug)]
pub struct Session {
    pub status: i16,
    pub user: Option<User>,
}

/// The one message both failed-login causes share, so that a caller cannot
/// tell an unknown email from a wrong password.
pub open spec fn invalid_combination_msg() -> Seq<char> {
    "E-mail address and password combination is invalid, or the account does not exist."@
}

/// The status a login for these credentials ends with: 200 exactly when the
/// email is registered and the recomputed hash matches the stored one.
pub open spec fn login_status(
    users: Seq<Account>,
    email: Seq<char>,
    password: Seq<char>,
    pepper: Seq<char>,
) -> int {
    match find_first(users, by_email(email)) {
        None => 401,
        Some(a) => if a.password@ == password_hash_of(password, a.salt@, pepper) {
            200
        } else {
            401
        },
    }
}

/// Logs a user in: decodes the credentials, recomputes the stored hash with
/// the account's salt and the process pepper, and on a match stores a fresh
/// 64-character session on the account.
pub fn post_login(db: &mut Database, env: &Environment, form: &LoginForm) -> (r: Result<
    LoginResponse,
    String,
>)
    requires
        old(db).wf(),
    ensures
        final(db).wf(),
        ({
            let e = decoded_text(form.email@);
            let p = decoded_text(form.password@);
            match r {
                Err(m) => {
                    &&& (e is None || p is None)
                    &&& *final(db) == *old(db)
                    &&& e is None ==> m@ == "Invalid base64 value for parameter 'email'"@
                    &&& (e is Some && p is None) ==> m@
                        == "Invalid base64 value for parameter 'password'"@
                },
                Ok(resp) => {
                    &&& e is Some && p is Some
                    &&& resp.status == login_status(
                        old(db).users@,
                        e.unwrap(),
                        p.unwrap(),
                        env.password_pepper@,
                    )
                    &&& if resp.status == 200 {
                        &&& resp.status_message is None
                        &&& resp.session_id matches Some(sid) && is_token(sid@, 64)
                        &&& session_updated(
                            old(db).users@,
                            final(db).users@,
                            e.unwrap(),
                            resp.session_id.unwrap()@,
                        )
                        &&& *final(db) == (Database { users: final(db).users, ..*old(db) })
                    } else {
                        &&& resp.status == 401
                        &&& resp.status_message matches Some(m) && m@ == invalid_combination_msg()
                        &&& resp.session_id is None
                        &&& *final(db) == *old(db)
                    }
                },
            }
        }),
{
    let email = match decode_b64_text(form.email.as_str()) {
        Some(e) => e,
        None => {
            return Err(String::from_str("Invalid base64 value for parameter 'email'"));
        },
    };
    let password = match decode_b64_text(form.password.as_str()) {
        Some(p) => p,
        None => {
            return Err(String::from_str("Invalid base64 value for parameter 'password'"));
        },
    };
    let (salt, stored_hash) = match db.find_account_by_email(email.as_str()) {
        Some(a) => (a.salt.clone(), a.password.clone()),
        None => {
            return Ok(
                LoginResponse::new(
                    401,
                    Some(String::from_str(
                        "E-mail address and password combination is invalid, or the account does not exist.",
                    )),
                    None,
                ),
            );
        },
    };
    proof {
        lemma_find_first_found(db.users@, by_email(email@));
        let a = find_first(db.users@, by_email(email@)).unwrap();
        let i = choose|i: int| 0 <= i < db.users@.len() && db.users@[i] == a;
        assert(db.users@[i].salt@.len() == 16);
    }
    let hashed = hash_password(password.as_str(), salt.as_str(), env.password_pepper.as_str());
    if !crate::text::str_eq(hashed.as_str(), stored_hash.as_str()) {
        return Ok(
            LoginResponse::new(
                401,
                Some(String::from_str(
                    "E-mail address and password combination is invalid, or the account does not exist.",
                )),
                None,
            ),
        );
    }
    let session_id = random_alphanumeric(64);
    db.set_session_by_email(email.as_str(), session_id.as_str());
    Ok(LoginResponse::new(200, None, Some(session_id)))
}

/// Registers an account: decodes the credentials, rejects an email that is
/// already taken, and otherwise stores the account with a fresh salt,
/// hashed password, user id and session.
pub fn post_register(db: &mut Database, env: &Environment, form: &LoginForm) -> (r: Result<
    LoginResponse,
    String,
>)
    requires
        old(db).wf(),
    ensures
        final(db).wf(),
        ({
            let e = decoded_text(form.email@);
            let p = decoded_text(form.password@);
            match r {
                Err(m) => {
                    &&& (e is None || p is None)
                    &&& *final(db) == *old(db)
                    &&& e is None ==> m@ == "Invalid base64 value for parameter 'email'"@
                    &&& (e is Some && p is None) ==> m@
                        == "Invalid base64 value for parameter 'password'"@
                },
                Ok(resp) => {
                    &&& e is Some && p is Some
                    &&& if find_first(old(db).users@, by_email(e.unwrap())) is Some {
                        &&& resp.status == 409
                        &&& resp.status_message matches Some(m) && m@ == "Account already exists"@
                        &&& resp.session_id is None
                        &&& *final(db) == *old(db)
                    } else {
                        &&& resp.status == 200
                        &&& resp.status_message is None
                        &&& resp.session_id matches Some(sid) && is_token(sid@, 64)
                        &&& final(db).users@.len() == old(db).users@.len() + 1
                        &&& final(db).users@.subrange(0, old(db).users@.len() as int) == old(
                            db,
                        ).users@
                        &&& ({
                            let a = final(db).users@.last();
                            &&& a.email@ == e.unwrap()
                            &&& is_token(a.user_id@, 64)
                            &&& is_token(a.salt@, 16)
                            &&& a.password@ == password_hash_of(
                                p.unwrap(),
                                a.salt@,
                                env.password_pepper@,
                            )
                            &&& a.session_id matches Some(s) && s@ == resp.session_id.unwrap()@
                        })
                        &&& *final(db) == (Database { users: final(db).users, ..*old(db) })
                    }
                },
            }
        }),
{
    let email = match decode_b64_text(form.email.as_str()) {
        Some(e) => e,
        None => {
            return Err(String::from_str("Invalid base64 value for parameter 'email'"));
        },
    };
    let password = match decode_b64_text(form.password.as_str()) {
        Some(p) => p,
        None => {
            return Err(String::from_str("Invalid base64 value for parameter 'password'"));
        },
    };
    if db.find_account_by_email(email.as_str()).is_some() {
        return Ok(
            LoginResponse::new(409, Some(String::from_str("Account already exists")), None),
        );
    }
    let salt = random_alphanumeric(16);
    proof {
        lemma_token_is_ascii(salt@, 16);
    }
    let password_final = hash_password(
        password.as_str(),
        salt.as_str(),
        env.password_pepper.as_str(),
    );
    let session_id = random_alphanumeric(64);
    let user_id = random_alphanumeric(64);
    let account = Account {
        user_id,
        email,
        password: password_final,
        salt,
        session_id: Some(session_id.clone()),
    };
    proof {
        lemma_find_first_none(db.users@, by_email(decoded_text(form.email@).unwrap()));
    }
    db.users.push(account);
    proof {
        assert(db.users@.subrange(0, old(db).users@.len() as int) =~= old(db).users@);
        assert forall|i: int, j: int| 0 <= i < j < db.users@.len() implies (
        #[trigger] db.users@[i]).email@ != (#[trigger] db.users@[j]).email@ by {
            if j == db.users@.len() - 1 {
                assert(!(by_email(decoded_text(form.email@).unwrap())(old(db).users@[i])));
            }
        }
        lemma_token_is_ascii(db.users@.last().salt@, 16);
    }
    Ok(LoginResponse::new(200, None, Some(session_id)))
}

/// Looks a session up: 200 with the owning user when the session exists,
/// 401 otherwise.
pub fn post_session(db: &Database, form: &SessionForm) -> (r: Session)
    ensures
        match find_first(db.users@, by_session(form.session_id@)) {
            Some(a) => r.status == 200 && (r.user matches Some(u) && u.user_id@ == a.user_id@),
            None => r.status == 401 && r.user is None,
        },
{
    match get_user(form.session_id.as_str(), db) {
        Some(u) => Session { status: 200, user: Some(u) },
        None => Session { status: 401, user: None },
    }
}

/// Registering an account and then logging in with the same email and
/// password succeeds: the hash the login recomputes is exactly the stored
/// one, for every valid email/password pair.
pub proof fn lemma_register_then_login(
    users: Seq<Account>,
    a: Account,
    email: Seq<char>,
    password: Seq<char>,
    pepper: Seq<char>,
)
    requires
        find_first(users, by_email(email)) is None,
        a.email@ == email,
        a.password@ == password_hash_of(password, a.salt@, pepper),
    ensures
        login_status(users.push(a), email, password, pepper) == 200,
{
    lemma_find_first_push(users, by_email(email), a);
}

/// Enumeration safety: a login with a wrong password for a registered email
/// and a login for an email nobody registered end with the same status.
pub proof fn lemma_login_enumeration_safe(
    users: Seq<Account>,
    known_email: Seq<char>,
    wrong_password: Seq<char>,
    unknown_email: Seq<char>,
    any_password: Seq<char>,
    pepper: Seq<char>,
)
    requires
        match find_first(users, by_email(known_email)) {
            Some(a) => a.password@ != password_hash_of(wrong_password, a.salt@, pepper),
            None => false,
        },
        find_first(users, by_email(unknown_email)) is None,
    ensures
        login_status(users, known_email, wrong_password, pepper) == login_status(
            users,
            unknown_email,
            any_password,
            pepper,
        ),
{
}

} // verus!

