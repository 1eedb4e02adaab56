//! A model of the relational store behind the server.
//!
//! Each table is a vector of rows; lookups are first-match searches and
//! deletions remove every row matching the key, as the server's
//! parameterized queries do. Single-use tokens (OAuth states, authorization
//! codes) are enforced by deleting the matching rows in the same operation
//! that consumes them.

use vstd::prelude::*;

verus! {

use crate::appdata::OAuthCredentials;
use crate::appdata::OAuthIdentifier;
use vstd::string::StringExecFns;
use crate::types::service::ServiceType;
use vstd::utf8::is_ascii_chars;

/// A registered account. The password is stored only in its salted,
/// peppered, bcrypt-hashed form.
#[derive(Debug)]
pub struct Account {
    pub user_id: String,
    pub email: String,
    pub password: String,
    pub salt: String,
    pub session_id: Option<String>,
}

/// One pending OAuth flow: the internal correlation token together with the
/// consumer's own state and redirect URI. Single use.
#[derive(Debug)]
pub struct OAuthState {
    pub internal_state: String,
    pub oauth_state: String,
    pub oauth_redirect_uri: String,
}

/// A one-time authorization code issued to an account at consent. Single
/// use.
#[derive(Debug)]
pub struct AuthorizationCode {
    pub user_id: String,
    pub authorization_code: String,
}

/// An issued token pair. The access token expires; the refresh token rotates
/// it.
#[derive(Debug)]
pub struct Grant {
    pub user_id: String,
    pub access_token: String,
    pub refresh_token: String,
    pub expiry: i64,
}

/// A service linked to an account.
#[derive(Debug)]
pub struct ServiceRow {
    pub user_id: String,
    pub service_id: String,
    pub identifier: ServiceType,
}

/// The encrypted username and password stored for a linked service.
#[derive(Debug)]
pub struct PasswordCredentialRow {
    pub service_id: String,
    pub username: String,
    pub password: String,
}

/// The first element of `s` satisfying `p`, if any.
pub open spec fn find_first<T>(s: Seq<T>, p: spec_fn(T) -> bool) -> Option<T>
    decreases s.len(),
{
    if s.len() == 0 {
        None
    } else if p(s[0]) {
        Some(s[0])
    } else {
        find_first(s.drop_first(), p)
    }
}

/// `s` with every element satisfying `p` removed, order kept.
pub open spec fn remove_all<T>(s: Seq<T>, p: spec_fn(T) -> bool) -> Seq<T>
    decreases s.len(),
{
    if s.len() == 0 {
        Seq::empty()
    } else if p(s[0]) {
        remove_all(s.drop_first(), p)
    } else {
        seq![s[0]] + remove_all(s.drop_first(), p)
    }
}

pub proof fn lemma_find_first_push<T>(s: Seq<T>, p: spec_fn(T) -> bool, x: T)
    ensures
        find_first(s.push(x), p) == (if find_first(s, p) is Some {
            find_first(s, p)
        } else if p(x) {
            Some(x)
        } else {
            None::<T>
        }),
    decreases s.len(),
{
    if s.len() == 0 {
        assert(s.push(x)[0] == x);
        assert(s.push(x).drop_first() =~= Seq::<T>::empty());
    } else {
        assert(s.push(x)[0] == s[0]);
        assert(s.push(x).drop_first() =~= s.drop_first().push(x));
        lemma_find_first_push(s.drop_first(), p, x);
    }
}

pub proof fn lemma_remove_all_push<T>(s: Seq<T>, p: spec_fn(T) -> bool, x: T)
    ensures
        p(x) ==> remove_all(s.push(x), p) =~= remove_all(s, p),
        !p(x) ==> remove_all(s.push(x), p) =~= remove_all(s, p).push(x),
    decreases s.len(),
{
    if s.len() == 0 {
        let t = s.push(x);
        assert(t.len() == 1);
        assert(t[0] == x);
        assert(t.drop_first() =~= Seq::<T>::empty());
        assert(t.drop_first() == Seq::<T>::empty());
        assert(remove_all(t.drop_first(), p) == Seq::<T>::empty());
        assert(remove_all(s, p) == Seq::<T>::empty());
        if p(x) {
            assert(remove_all(t, p) == remove_all(t.drop_first(), p));
            assert(remove_all(t, p) =~= remove_all(s, p));
        } else {
            assert(remove_all(t, p) == seq![t[0]] + remove_all(t.drop_first(), p));
            assert(seq![t[0]] + Seq::<T>::empty() =~= Seq::<T>::empty().push(x));
            assert(remove_all(t, p) =~= remove_all(s, p).push(x));
        }
    } else {
        assert(s.push(x)[0] == s[0]);
        assert(s.push(x).drop_first() =~= s.drop_first().push(x));
        lemma_remove_all_push(s.drop_first(), p, x);
        if !p(s[0]) {
            if p(x) {
            } else {
                assert(seq![s[0]] + remove_all(s.drop_first(), p).push(x) =~= (seq![s[0]]
                    + remove_all(s.drop_first(), p)).push(x));
            }
        }
    }
}

/// After removing every element that `keep_out` matches, no search for a
/// property implying `keep_out` can succeed.
pub proof fn lemma_find_first_remove_all<T>(s: Seq<T>, keep_out: spec_fn(T) -> bool, p: spec_fn(
    T,
) -> bool)
    requires
        forall|x: T| #[trigger] p(x) ==> keep_out(x),
    ensures
        find_first(remove_all(s, keep_out), p) is None,
    decreases s.len(),
{
    if s.len() == 0 {
    } else if keep_out(s[0]) {
        lemma_find_first_remove_all(s.drop_first(), keep_out, p);
    } else {
        let rest = remove_all(s.drop_first(), keep_out);
        assert((seq![s[0]] + rest)[0] == s[0]);
        assert((seq![s[0]] + rest).drop_first() =~= rest);
        lemma_find_first_remove_all(s.drop_first(), keep_out, p);
    }
}

/// A failed search means no element matches.
pub proof fn lemma_find_first_none<T>(s: Seq<T>, p: spec_fn(T) -> bool)
    requires
        find_first(s, p) is None,
    ensures
        forall|i: int| 0 <= i < s.len() ==> !p(#[trigger] s[i]),
    decreases s.len(),
{
    if s.len() == 0 {
    } else {
        lemma_find_first_none(s.drop_first(), p);
        assert forall|i: int| 0 <= i < s.len() implies !p(#[trigger] s[i]) by {
            if i > 0 {
                assert(s.drop_first()[i - 1] == s[i]);
            }
        }
    }
}

/// A successful search returns a matching element of the sequence.
pub proof fn lemma_find_first_found<T>(s: Seq<T>, p: spec_fn(T) -> bool)
    requires
        find_first(s, p) is Some,
    ensures
        p(find_first(s, p).unwrap()),
        exists|i: int| 0 <= i < s.len() && s[i] == find_first(s, p).unwrap(),
    decreases s.len(),
{
    if s.len() == 0 {
    } else if p(s[0]) {
        assert(s[0] == find_first(s, p).unwrap());
    } else {
        lemma_find_first_found(s.drop_first(), p);
        let i = choose|i: int|
            0 <= i < s.drop_first().len() && s.drop_first()[i] == find_first(
                s.drop_first(),
                p,
            ).unwrap();
        assert(s[i + 1] == find_first(s, p).unwrap());
    }
}

/// No element left by `remove_all` satisfies the predicate it removed.
pub proof fn lemma_remove_all_excludes<T>(s: Seq<T>, p: spec_fn(T) -> bool)
    ensures
        forall|i: int| 0 <= i < remove_all(s, p).len() ==> !p(#[trigger] remove_all(s, p)[i]),
    decreases s.len(),
{
    if s.len() == 0 {
    } else if p(s[0]) {
        lemma_remove_all_excludes(s.drop_first(), p);
        assert forall|i: int|
            0 <= i < remove_all(s, p).len() implies !p(#[trigger] remove_all(s, p)[i]) by {
            assert(remove_all(s, p)[i] == remove_all(s.drop_first(), p)[i]);
        }
    } else {
        lemma_remove_all_excludes(s.drop_first(), p);
        let rest = remove_all(s.drop_first(), p);
        assert forall|i: int|
            0 <= i < remove_all(s, p).len() implies !p(#[trigger] remove_all(s, p)[i]) by {
            if i == 0 {
                assert(remove_all(s, p)[0] == s[0]);
            } else {
                assert(remove_all(s, p)[i] == rest[i - 1]);
            }
        }
    }
}

/// If no element before `i` matches and `s[i]` does, the search returns
/// `s[i]`.
pub proof fn lemma_find_first_at<T>(s: Seq<T>, p: spec_fn(T) -> bool, i: int)
    requires
        0 <= i < s.len(),
        find_first(s.subrange(0, i), p) is None,
        p(s[i]),
    ensures
        find_first(s, p) == Some(s[i]),
    decreases i,
{
    if i == 0 {
    } else {
        assert(s.subrange(0, i)[0] == s[0]);
        assert(!p(s[0]));
        assert(s.subrange(0, i).drop_first() =~= s.drop_first().subrange(0, i - 1));
        assert(s.drop_first()[i - 1] == s[i]);
        lemma_find_first_at(s.drop_first(), p, i - 1);
    }
}

/// The row predicates the store is queried by.
pub open spec fn by_email(email: Seq<char>) -> spec_fn(Account) -> bool {
    |x: Account| x.email@ == email
}

pub open spec fn by_session(session_id: Seq<char>) -> spec_fn(Account) -> bool {
    |x: Account| x.session_id matches Some(s) && s@ == session_id
}

pub open spec fn state_by_key(internal_state: Seq<char>) -> spec_fn(OAuthState) -> bool {
    |x: OAuthState| x.internal_state@ == internal_state
}

pub open spec fn code_by_value(code: Seq<char>) -> spec_fn(AuthorizationCode) -> bool {
    |x: AuthorizationCode| x.authorization_code@ == code
}

pub open spec fn code_consumed(user_id: Seq<char>, code: Seq<char>) -> spec_fn(
    AuthorizationCode,
) -> bool {
    |x: AuthorizationCode| x.user_id@ == user_id || x.authorization_code@ == code
}

pub open spec fn grant_by_access(token: Seq<char>) -> spec_fn(Grant) -> bool {
    |x: Grant| x.access_token@ == token
}

pub open spec fn grant_by_refresh(token: Seq<char>) -> spec_fn(Grant) -> bool {
    |x: Grant| x.refresh_token@ == token
}

pub open spec fn creds_by_service(service_id: Seq<char>) -> spec_fn(PasswordCredentialRow) -> bool {
    |x: PasswordCredentialRow| x.service_id@ == service_id
}

pub open spec fn creds_by_identifier(identifier: OAuthIdentifier) -> spec_fn(
    OAuthCredentials,
) -> bool {
    |x: OAuthCredentials| x.identifier == identifier
}

/// The in-memory relational store, one field per table.
pub struct Database {
    pub users: Vec<Account>,
    pub oauth_credentials: Vec<OAuthCredentials>,
    pub oauth_states: Vec<OAuthState>,
    pub oauth_authorization_codes: Vec<AuthorizationCode>,
    pub oauth_grants: Vec<Grant>,
    pub services: Vec<ServiceRow>,
    pub services_password_credentials: Vec<PasswordCredentialRow>,
}

impl Database {
    /// The store's invariant: emails are unique, and every stored salt is
    /// the 16 ASCII characters registration generates, so that login can
    /// always recompute the hash.
    pub open spec fn wf(self) -> bool {
        &&& forall|i: int, j: int|
            0 <= i < j < self.users@.len() ==> (#[trigger] self.users@[i]).email@ != (
            #[trigger] self.users@[j]).email@
        &&& forall|i: int|
            0 <= i < self.users@.len() ==> (#[trigger] self.users@[i]).salt@.len() == 16
                && is_ascii_chars(self.users@[i].salt@)
    }

    /// An empty store.
    pub fn new() -> (r: Database)
        ensures
            r.users@.len() == 0,
            r.oauth_credentials@.len() == 0,
            r.oauth_states@.len() == 0,
            r.oauth_authorization_codes@.len() == 0,
            r.oauth_grants@.len() == 0,
            r.services@.len() == 0,
            r.services_password_credentials@.len() == 0,
            r.wf(),
    {
        Database {
            users: Vec::new(),
            oauth_credentials: Vec::new(),
            oauth_states: Vec::new(),
            oauth_authorization_codes: Vec::new(),
            oauth_grants: Vec::new(),
            services: Vec::new(),
            services_password_credentials: Vec::new(),
        }
    }

    /// `SELECT ... FROM users WHERE email = :email`
    #[verifier::loop_isolation(false)]
    pub fn find_account_by_email(&self, email: &str) -> (r: Option<&Account>)
        ensures
            match r {
                Some(a) => find_first(self.users@, by_email(email@)) == Some(*a),
                None => find_first(self.users@, by_email(email@)) is None,
            },
    {
        let ghost p = by_email(email@);
        let mut i: usize = 0;
        while i < self.users.len()
            invariant
                i <= self.users@.len(),
                find_first(self.users@.subrange(0, i as int), p) is None,
            decreases self.users@.len() - i,
        {
            if crate::text::str_eq(self.users[i].email.as_str(), email) {
                proof {
                    lemma_find_first_at(self.users@, p, i as int);
                }
                return Some(&self.users[i]);
            }
            proof {
                assert(self.users@.subrange(0, i + 1) =~= self.users@.subrange(0, i as int).push(
                    self.users@[i as int],
                ));
                lemma_find_first_push(self.users@.subrange(0, i as int), p, self.users@[i as int]);
            }
            i = i + 1;
        }
        proof {
            assert(self.users@.subrange(0, self.users@.len() as int) =~= self.users@);
        }
        None
    }

    /// `SELECT ... FROM users WHERE session_id = :session_id`
    #[verifier::loop_isolation(false)]
    pub fn find_account_by_session(&self, session_id: &str) -> (r: Option<&Account>)
        ensures
            match r {
                Some(a) => find_first(
                    self.users@,
                    by_session(session_id@),
                ) == Some(*a),
                None => find_first(
                    self.users@,
                    by_session(session_id@),
                ) is None,
            },
    {
        let ghost p = by_session(session_id@);
        let mut i: usize = 0;
        while i < self.users.len()
            invariant
                i <= self.users@.len(),
                find_first(self.users@.subrange(0, i as int), p) is None,
            decreases self.users@.len() - i,
        {
            let hit = match &self.users[i].session_id {
                Some(s) => crate::text::str_eq(s.as_str(), session_id),
                None => false,
            };
            if hit {
                proof {
                    lemma_find_first_at(self.users@, p, i as int);
                }
                return Some(&self.users[i]);
            }
            proof {
                assert(self.users@.subrange(0, i + 1) =~= self.users@.subrange(0, i as int).push(
                    self.users@[i as int],
                ));
                lemma_find_first_push(self.users@.subrange(0, i as int), p, self.users@[i as int]);
            }
            i = i + 1;
        }
        proof {
            assert(self.users@.subrange(0, self.users@.len() as int) =~= self.users@);
        }
        None
    }

    /// `UPDATE users SET session_id = :session_id WHERE email = :email`
    #[verifier::loop_isolation(false)]
    pub fn set_session_by_email(&mut self, email: &str, session_id: &str)
        ensures
            session_updated(old(self).users@, final(self).users@, email@, session_id@),
            *final(self) == (Database { users: final(self).users, ..*old(self) }),
            old(self).wf() ==> final(self).wf(),
    {
        let mut i: usize = 0;
        while i < self.users.len()
            invariant
                i <= self.users@.len(),
                self.users@.len() == old(self).users@.len(),
                *self == (Database { users: self.users, ..*old(self) }),
                forall|j: int|
                    i <= j < self.users@.len() ==> self.users@[j] == old(self).users@[j],
                forall|j: int|
                    0 <= j < i ==> updated_or_kept(
                        old(self).users@[j],
                        (#[trigger] self.users@[j]),
                        email@,
                        session_id@,
                    ),
            decreases self.users@.len() - i,
        {
            if crate::text::str_eq(self.users[i].email.as_str(), email) {
                let row = &self.users[i];
                let updated = Account {
                    user_id: row.user_id.clone(),
                    email: row.email.clone(),
                    password: row.password.clone(),
                    salt: row.salt.clone(),
                    session_id: Some(String::from_str(session_id)),
                };
                self.users[i] = updated;
            }
            i = i + 1;
        }
    }

    /// `SELECT ... FROM oauth_states WHERE internal_state = :internal_state`
    #[verifier::loop_isolation(false)]
    pub fn find_oauth_state(&self, internal_state: &str) -> (r: Option<&OAuthState>)
        ensures
            match r {
                Some(st) => find_first(
                    self.oauth_states@,
                    state_by_key(internal_state@),
                ) == Some(*st),
                None => find_first(
                    self.oauth_states@,
                    state_by_key(internal_state@),
                ) is None,
            },
    {
        let ghost p = state_by_key(internal_state@);
        let mut i: usize = 0;
        while i < self.oauth_states.len()
            invariant
                i <= self.oauth_states@.len(),
                find_first(self.oauth_states@.subrange(0, i as int), p) is None,
            decreases self.oauth_states@.len() - i,
        {
            if crate::text::str_eq(self.oauth_states[i].internal_state.as_str(), internal_state) {
                proof {
                    lemma_find_first_at(self.oauth_states@, p, i as int);
                }
                return Some(&self.oauth_states[i]);
            }
            proof {
                assert(self.oauth_states@.subrange(0, i + 1) =~= self.oauth_states@.subrange(
                    0,
                    i as int,
                ).push(self.oauth_states@[i as int]));
                lemma_find_first_push(
                    self.oauth_states@.subrange(0, i as int),
                    p,
                    self.oauth_states@[i as int],
                );
            }
            i = i + 1;
        }
        proof {
            assert(self.oauth_states@.subrange(0, self.oauth_states@.len() as int)
                =~= self.oauth_states@);
        }
        None
    }

    /// `DELETE FROM oauth_states WHERE internal_state = :internal_state`
    #[verifier::loop_isolation(false)]
    pub fn delete_oauth_states(&mut self, internal_state: &str)
        ensures
            final(self).oauth_states@ == remove_all(
                old(self).oauth_states@,
                state_by_key(internal_state@),
            ),
            *final(self) == (Database { oauth_states: final(self).oauth_states, ..*old(self) }),
    {
        let ghost p = state_by_key(internal_state@);
        let mut rest: Vec<OAuthState> = Vec::new();
        core::mem::swap(&mut rest, &mut self.oauth_states);
        let ghost orig = rest@;
        while rest.len() > 0
            invariant
                rest@.len() <= orig.len(),
                rest@ =~= orig.subrange((orig.len() - rest@.len()) as int, orig.len() as int),
                self.oauth_states@ == remove_all(
                    orig.subrange(0, (orig.len() - rest@.len()) as int),
                    p,
                ),
                *self == (Database { oauth_states: self.oauth_states, ..*old(self) }),
            decreases rest@.len(),
        {
            let ghost k = orig.len() - rest@.len();
            let row = rest.remove(0);
            proof {
                assert(row == orig[k as int]);
                assert(orig.subrange(0, k as int + 1) =~= orig.subrange(0, k as int).push(
                    orig[k as int],
                ));
                lemma_remove_all_push(orig.subrange(0, k as int), p, orig[k as int]);
                assert(rest@ =~= orig.subrange(k as int + 1, orig.len() as int));
            }
            if !crate::text::str_eq(row.internal_state.as_str(), internal_state) {
                self.oauth_states.push(row);
            }
        }
        proof {
            assert(orig.subrange(0, orig.len() as int) =~= orig);
        }
    }

    /// `SELECT ... FROM oauth_authorization_codes WHERE authorization_code =
    /// :authorization_code`
    #[verifier::loop_isolation(false)]
    pub fn find_authorization_code(&self, code: &str) -> (r: Option<&AuthorizationCode>)
        ensures
            match r {
                Some(c) => find_first(
                    self.oauth_authorization_codes@,
                    code_by_value(code@),
                ) == Some(*c),
                None => find_first(
                    self.oauth_authorization_codes@,
                    code_by_value(code@),
                ) is None,
            },
    {
        let ghost p = code_by_value(code@);
        let mut i: usize = 0;
        while i < self.oauth_authorization_codes.len()
            invariant
                i <= self.oauth_authorization_codes@.len(),
                find_first(self.oauth_authorization_codes@.subrange(0, i as int), p) is None,
            decreases self.oauth_authorization_codes@.len() - i,
        {
            if crate::text::str_eq(
                self.oauth_authorization_codes[i].authorization_code.as_str(),
                code,
            ) {
                proof {
                    lemma_find_first_at(self.oauth_authorization_codes@, p, i as int);
                }
                return Some(&self.oauth_authorization_codes[i]);
            }
            proof {
                assert(self.oauth_authorization_codes@.subrange(0, i + 1)
                    =~= self.oauth_authorization_codes@.subrange(0, i as int).push(
                    self.oauth_authorization_codes@[i as int],
                ));
                lemma_find_first_push(
                    self.oauth_authorization_codes@.subrange(0, i as int),
                    p,
                    self.oauth_authorization_codes@[i as int],
                );
            }
            i = i + 1;
        }
        proof {
            assert(self.oauth_authorization_codes@.subrange(
                0,
                self.oauth_authorization_codes@.len() as int,
            ) =~= self.oauth_authorization_codes@);
        }
        None
    }

    /// Deletes the authorization codes of an account together with any row
    /// sharing the given code value: the conditional delete that keeps the
    /// codes single-use and at most one per account.
    #[verifier::loop_isolation(false)]
    pub fn delete_authorization_codes(&mut self, user_id: &str, code: &str)
        ensures
            final(self).oauth_authorization_codes@ == remove_all(
                old(self).oauth_authorization_codes@,
                code_consumed(user_id@, code@),
            ),
            *final(self) == (Database {
                oauth_authorization_codes: final(self).oauth_authorization_codes,
                ..*old(self)
            }),
    {
        let ghost p = code_consumed(user_id@, code@);
        let mut rest: Vec<AuthorizationCode> = Vec::new();
        core::mem::swap(&mut rest, &mut self.oauth_authorization_codes);
        let ghost orig = rest@;
        while rest.len() > 0
            invariant
                rest@.len() <= orig.len(),
                rest@ =~= orig.subrange((orig.len() - rest@.len()) as int, orig.len() as int),
                self.oauth_authorization_codes@ == remove_all(
                    orig.subrange(0, (orig.len() - rest@.len()) as int),
                    p,
                ),
                *self == (Database {
                    oauth_authorization_codes: self.oauth_authorization_codes,
                    ..*old(self)
                }),
            decreases rest@.len(),
        {
            let ghost k = orig.len() - rest@.len();
            let row = rest.remove(0);
            proof {
                assert(row == orig[k as int]);
                assert(orig.subrange(0, k as int + 1) =~= orig.subrange(0, k as int).push(
                    orig[k as int],
                ));
                lemma_remove_all_push(orig.subrange(0, k as int), p, orig[k as int]);
                assert(rest@ =~= orig.subrange(k as int + 1, orig.len() as int));
            }
            let user_hit = crate::text::str_eq(row.user_id.as_str(), user_id);
            let code_hit = crate::text::str_eq(row.authorization_code.as_str(), code);
            if !user_hit && !code_hit {
                self.oauth_authorization_codes.push(row);
            }
        }
        proof {
            assert(orig.subrange(0, orig.len() as int) =~= orig);
        }
    }

    /// `SELECT ... FROM oauth_grants WHERE access_token = :access_token`
    #[verifier::loop_isolation(false)]
    pub fn find_grant_by_access_token(&self, token: &str) -> (r: Option<&Grant>)
        ensures
            match r {
                Some(g) => find_first(self.oauth_grants@, grant_by_access(token@))
                    == Some(*g),
                None => find_first(
                    self.oauth_grants@,
                    grant_by_access(token@),
                ) is None,
            },
    {
        let ghost p = grant_by_access(token@);
        let mut i: usize = 0;
        while i < self.oauth_grants.len()
            invariant
                i <= self.oauth_grants@.len(),
                find_first(self.oauth_grants@.subrange(0, i as int), p) is None,
            decreases self.oauth_grants@.len() - i,
        {
            if crate::text::str_eq(self.oauth_grants[i].access_token.as_str(), token) {
                proof {
                    lemma_find_first_at(self.oauth_grants@, p, i as int);
                }
                return Some(&self.oauth_grants[i]);
            }
            proof {
                assert(self.oauth_grants@.subrange(0, i + 1) =~= self.oauth_grants@.subrange(
                    0,
                    i as int,
                ).push(self.oauth_grants@[i as int]));
                lemma_find_first_push(
                    self.oauth_grants@.subrange(0, i as int),
                    p,
                    self.oauth_grants@[i as int],
                );
            }
            i = i + 1;
        }
        proof {
            assert(self.oauth_grants@.subrange(0, self.oauth_grants@.len() as int)
                =~= self.oauth_grants@);
        }
        None
    }

    /// `SELECT ... FROM oauth_grants WHERE refresh_token = :refresh_token`
    #[verifier::loop_isolation(false)]
    pub fn find_grant_by_refresh_token(&self, token: &str) -> (r: Option<&Grant>)
        ensures
            match r {
                Some(g) => find_first(self.oauth_grants@, grant_by_refresh(token@))
                    == Some(*g),
                None => find_first(
                    self.oauth_grants@,
                    grant_by_refresh(token@),
                ) is None,
            },
    {
        let ghost p = grant_by_refresh(token@);
        let mut i: usize = 0;
        while i < self.oauth_grants.len()
            invariant
                i <= self.oauth_grants@.len(),
                find_first(self.oauth_grants@.subrange(0, i as int), p) is None,
            decreases self.oauth_grants@.len() - i,
        {
            if crate::text::str_eq(self.oauth_grants[i].refresh_token.as_str(), token) {
                proof {
                    lemma_find_first_at(self.oauth_grants@, p, i as int);
                }
                return Some(&self.oauth_grants[i]);
            }
            proof {
                assert(self.oauth_grants@.subrange(0, i + 1) =~= self.oauth_grants@.subrange(
                    0,
                    i as int,
                ).push(self.oauth_grants@[i as int]));
                lemma_find_first_push(
                    self.oauth_grants@.subrange(0, i as int),
                    p,
                    self.oauth_grants@[i as int],
                );
            }
            i = i + 1;
        }
        proof {
            assert(self.oauth_grants@.subrange(0, self.oauth_grants@.len() as int)
                =~= self.oauth_grants@);
        }
        None
    }

    /// `UPDATE oauth_grants SET access_token = :access_token, expiry =
    /// :expiry WHERE refresh_token = :refresh_token`
    #[verifier::loop_isolation(false)]
    pub fn refresh_grants(&mut self, refresh_token: &str, access_token: &str, expiry: i64)
        ensures
            grants_refreshed(
                old(self).oauth_grants@,
                final(self).oauth_grants@,
                refresh_token@,
                access_token@,
                expiry,
            ),
            *final(self) == (Database { oauth_grants: final(self).oauth_grants, ..*old(self) }),
    {
        let mut i: usize = 0;
        while i < self.oauth_grants.len()
            invariant
                i <= self.oauth_grants@.len(),
                self.oauth_grants@.len() == old(self).oauth_grants@.len(),
                *self == (Database { oauth_grants: self.oauth_grants, ..*old(self) }),
                forall|j: int|
                    i <= j < self.oauth_grants@.len() ==> self.oauth_grants@[j] == old(
                        self,
                    ).oauth_grants@[j],
                forall|j: int|
                    0 <= j < i ==> grant_updated_or_kept(
                        old(self).oauth_grants@[j],
                        (#[trigger] self.oauth_grants@[j]),
                        refresh_token@,
                        access_token@,
                        expiry,
                    ),
            decreases self.oauth_grants@.len() - i,
        {
            if crate::text::str_eq(self.oauth_grants[i].refresh_token.as_str(), refresh_token) {
                let row = &self.oauth_grants[i];
                let updated = Grant {
                    user_id: row.user_id.clone(),
                    access_token: String::from_str(access_token),
                    refresh_token: row.refresh_token.clone(),
                    expiry,
                };
                self.oauth_grants[i] = updated;
            }
            i = i + 1;
        }
    }

    /// `SELECT ... FROM services_password_credentials WHERE service_id =
    /// :service_id`
    #[verifier::loop_isolation(false)]
    pub fn find_password_credentials(&self, service_id: &str) -> (r: Option<&PasswordCredentialRow>)
        ensures
            match r {
                Some(c) => find_first(
                    self.services_password_credentials@,
                    creds_by_service(service_id@),
                ) == Some(*c),
                None => find_first(
                    self.services_password_credentials@,
                    creds_by_service(service_id@),
                ) is None,
            },
    {
        let ghost p = creds_by_service(service_id@);
        let mut i: usize = 0;
        while i < self.services_password_credentials.len()
            invariant
                i <= self.services_password_credentials@.len(),
                find_first(self.services_password_credentials@.subrange(0, i as int), p) is None,
            decreases self.services_password_credentials@.len() - i,
        {
            if crate::text::str_eq(
                self.services_password_credentials[i].service_id.as_str(),
                service_id,
            ) {
                proof {
                    lemma_find_first_at(self.services_password_credentials@, p, i as int);
                }
                return Some(&self.services_password_credentials[i]);
            }
            proof {
                assert(self.services_password_credentials@.subrange(0, i + 1)
                    =~= self.services_password_credentials@.subrange(0, i as int).push(
                    self.services_password_credentials@[i as int],
                ));
                lemma_find_first_push(
                    self.services_password_credentials@.subrange(0, i as int),
                    p,
                    self.services_password_credentials@[i as int],
                );
            }
            i = i + 1;
        }
        proof {
            assert(self.services_password_credentials@.subrange(
                0,
                self.services_password_credentials@.len() as int,
            ) =~= self.services_password_credentials@);
        }
        None
    }

    /// `SELECT ... FROM oauth_credentials WHERE identifier = :identifier`
    #[verifier::loop_isolation(false)]
    pub fn find_oauth_credentials(&self, identifier: OAuthIdentifier) -> (r: Option<
        &OAuthCredentials,
    >)
        ensures
            match r {
                Some(c) => find_first(
                    self.oauth_credentials@,
                    creds_by_identifier(identifier),
                ) == Some(*c),
                None => find_first(
                    self.oauth_credentials@,
                    creds_by_identifier(identifier),
                ) is None,
            },
    {
        let ghost p = creds_by_identifier(identifier);
        let mut i: usize = 0;
        while i < self.oauth_credentials.len()
            invariant
                i <= self.oauth_credentials@.len(),
                find_first(self.oauth_credentials@.subrange(0, i as int), p) is None,
            decreases self.oauth_credentials@.len() - i,
        {
            if self.oauth_credentials[i].identifier == identifier {
                proof {
                    lemma_find_first_at(self.oauth_credentials@, p, i as int);
                }
                return Some(&self.oauth_credentials[i]);
            }
            proof {
                assert(self.oauth_credentials@.subrange(0, i + 1)
                    =~= self.oauth_credentials@.subrange(0, i as int).push(
                    self.oauth_credentials@[i as int],
                ));
                lemma_find_first_push(
                    self.oauth_credentials@.subrange(0, i as int),
                    p,
                    self.oauth_credentials@[i as int],
                );
            }
            i = i + 1;
        }
        proof {
            assert(self.oauth_credentials@.subrange(0, self.oauth_credentials@.len() as int)
                =~= self.oauth_credentials@);
        }
        None
    }
}

/// One account updated to carry the fresh session, all others untouched.
pub open spec fn updated_or_kept(o: Account, n: Account, email: Seq<char>, sid: Seq<char>) -> bool {
    if o.email@ == email {
        &&& n.user_id == o.user_id
        &&& n.email == o.email
        &&& n.password == o.password
        &&& n.salt == o.salt
        &&& n.session_id matches Some(s) && s@ == sid
    } else {
        n == o
    }
}

/// The accounts after a login wrote the fresh session for `email`.
pub open spec fn session_updated(
    old_users: Seq<Account>,
    new_users: Seq<Account>,
    email: Seq<char>,
    sid: Seq<char>,
) -> bool {
    &&& new_users.len() == old_users.len()
    &&& forall|i: int|
        0 <= i < old_users.len() ==> updated_or_kept(
            old_users[i],
            (#[trigger] new_users[i]),
            email,
            sid,
        )
}

/// One grant rotated to the fresh access token and expiry, all others
/// untouched.
pub open spec fn grant_updated_or_kept(
    o: Grant,
    n: Grant,
    refresh_token: Seq<char>,
    access_token: Seq<char>,
    expiry: i64,
) -> bool {
    if o.refresh_token@ == refresh_token {
        &&& n.user_id == o.user_id
        &&& n.refresh_token == o.refresh_token
        &&& n.access_token@ == access_token
        &&& n.expiry == expiry
    } else {
        n == o
    }
}

/// The grants after a refresh rotated every row carrying `refresh_token`.
pub open spec fn grants_refreshed(
    old_grants: Seq<Grant>,
    new_grants: Seq<Grant>,
    refresh_token: Seq<char>,
    access_token: Seq<char>,
    expiry: i64,
) -> bool {
    &&& new_grants.len() == old_grants.len()
    &&& forall|i: int|
        0 <= i < old_grants.len() ==> grant_updated_or_kept(
            old_grants[i],
            (#[trigger] new_grants[i]),
            refresh_token,
            access_token,
            expiry,
        )
}

} // verus!
