//! The authorization-code flow: initiation, consent completion, token
//! exchange and refresh.
//!
//! The flow walks one state machine: an `OAuthState` row is created at
//! initiation, traded for an `AuthorizationCode` at consent, which is traded
//! for a `Grant` at token exchange; a refresh rotates the grant's access
//! token in place. The state and the code are single-use: the operation
//! that consumes them deletes them, and the contracts state that a second
//! consumption fails.

use vstd::prelude::*;

verus! {

use crate::appdata::OAuthCredentials;
use crate::crypto::is_token;
use crate::crypto::random_alphanumeric;
use crate::database::Account;
use crate::database::AuthorizationCode;
use crate::database::Database;
use crate::database::Grant;
use crate::database::OAuthState;
use crate::database::by_session;
use crate::database::code_by_value;
use crate::database::code_consumed;
use crate::database::find_first;
use crate::database::grant_by_refresh;
use crate::database::grants_refreshed;
use crate::database::lemma_find_first_remove_all;
use crate::database::remove_all;
use crate::database::state_by_key;
use crate::environment::Environment;
use crate::text::is_prefix_of;
use crate::text::view_opt;
use vstd::string::StringExecFns;

/// The form body of the consent-completion endpoint.
#[derive(Debug)]
pub struct FinishFlowForm {
    pub session_id: String,
    pub internal_state: String,
}

/// The response body of the consent-completion endpoint.
#[derive(Debug)]
pub struct FinishResponse {
    pub status: i16,
    pub redirect_uri: Option<String>,
}

/// The token JSON returned for a code exchange.
#[derive(Debug)]
pub struct TokenResponse {
    pub token_type: String,
    pub access_token: String,
    pub refresh_token: String,
    pub expires_in: i16,
}

/// The token JSON returned for a refresh.
#[derive(Debug)]
pub struct RefreshTokenResponse {
    pub token_type: String,
    pub access_token: String,
    pub expires_in: i16,
}

/// How the token endpoint answers.
#[derive(Debug)]
pub enum TokenOutcome {
    /// A missing or malformed parameter: a 400 with a descriptive body.
    BadRequest(String),
    /// A failed credential, redirect or token check: the `invalid_grant`
    /// error body.
    InvalidGrant,
    /// A successful authorization-code exchange.
    Issued(TokenResponse),
    /// A successful refresh.
    Refreshed(RefreshTokenResponse),
}

/// The consumer redirect URIs the initiation accepts: the production and
/// sandbox redirect hosts of the voice-assistant platform.
pub open spec fn valid_redirect_uri(uri: Seq<char>) -> bool {
    ||| is_prefix_of("https://oauth-redirect.googleusercontent.com/r/"@, uri)
    ||| is_prefix_of("https://oauth-redirect-sandbox.googleusercontent.com/r/"@, uri)
}

/// The first validation failure of an initiation request, with its message,
/// or `None` when every check passes.
pub open spec fn initiate_error(
    client_id: Option<Seq<char>>,
    redirect_uri: Option<Seq<char>>,
    state: Option<Seq<char>>,
    scope: Option<Seq<char>>,
    response_type: Option<Seq<char>>,
    locale: Option<Seq<char>>,
    expected_client_id: Seq<char>,
) -> Option<Seq<char>> {
    if client_id is None {
        Some("Missing parameter 'client_id'"@)
    } else if client_id.unwrap() != expected_client_id {
        Some("Value of parameter 'client_id' is invalid."@)
    } else if redirect_uri is None {
        Some("Missing parameter 'redirect_uri'"@)
    } else if state is None {
        Some("Missing parameter 'state'"@)
    } else if scope is None {
        Some("Missing parameter 'scope'"@)
    } else if response_type is None {
        Some("Missing parameter 'response_type'"@)
    } else if response_type.unwrap() != "code"@ {
        Some("Value of parameter 'response_type' is invalid. Only the value of 'code' is supported."@)
    } else if locale is None {
        Some("Missing parameter 'locale'"@)
    } else if !valid_redirect_uri(redirect_uri.unwrap()) {
        Some("Value of parameter 'redirect_uri' is invalid."@)
    } else {
        None
    }
}

/// Initiates the flow: validates the consumer's request, stores a fresh
/// 64-character internal state beside the consumer's state and redirect
/// URI, and returns the login page URL the user is sent to.
pub fn get_login(
    db: &mut Database,
    creds: &OAuthCredentials,
    env: &Environment,
    client_id: Option<&str>,
    redirect_uri: Option<&str>,
    state: Option<&str>,
    scope: Option<&str>,
    response_type: Option<&str>,
    locale: Option<&str>,
) -> (r: Result<String, String>)
    ensures
        ({
            let err = initiate_error(
                view_opt(client_id),
                view_opt(redirect_uri),
                view_opt(state),
                view_opt(scope),
                view_opt(response_type),
                view_opt(locale),
                creds.client_id@,
            );
            match r {
                Err(m) => err == Some(m@) && *final(db) == *old(db),
                Ok(url) => {
                    &&& err is None
                    &&& final(db).oauth_states@.len() == old(db).oauth_states@.len() + 1
                    &&& final(db).oauth_states@.subrange(0, old(db).oauth_states@.len() as int)
                        == old(db).oauth_states@
                    &&& ({
                        let st = final(db).oauth_states@.last();
                        &&& is_token(st.internal_state@, 64)
                        &&& st.oauth_state@ == state.unwrap()@
                        &&& st.oauth_redirect_uri@ == redirect_uri.unwrap()@
                        &&& url@ == env.host@ + "/static/login/login.html?is_oauth=true&state="@
                            + st.internal_state@
                    })
                    &&& *final(db) == (Database {
                        oauth_states: final(db).oauth_states,
                        ..*old(db)
                    })
                },
            }
        }),
{
    let client_id_param = match client_id {
        Some(c) => c,
        None => {
            return Err(String::from_str("Missing parameter 'client_id'"));
        },
    };
    if !crate::text::str_eq(client_id_param, creds.client_id.as_str()) {
        return Err(String::from_str("Value of parameter 'client_id' is invalid."));
    }
    let redirect_uri_param = match redirect_uri {
        Some(u) => u,
        None => {
            return Err(String::from_str("Missing parameter 'redirect_uri'"));
        },
    };
    let state_param = match state {
        Some(s) => s,
        None => {
            return Err(String::from_str("Missing parameter 'state'"));
        },
    };
    if scope.is_none() {
        return Err(String::from_str("Missing parameter 'scope'"));
    }
    let response_type_param = match response_type {
        Some(t) => t,
        None => {
            return Err(String::from_str("Missing parameter 'response_type'"));
        },
    };
    if !crate::text::str_eq(response_type_param, "code") {
        return Err(
            String::from_str(
                "Value of parameter 'response_type' is invalid. Only the value of 'code' is supported.",
            ),
        );
    }
    if locale.is_none() {
        return Err(String::from_str("Missing parameter 'locale'"));
    }
    let production = crate::text::str_starts_with(
        redirect_uri_param,
        "https://oauth-redirect.googleusercontent.com/r/",
    );
    let sandbox = crate::text::str_starts_with(
        redirect_uri_param,
        "https://oauth-redirect-sandbox.googleusercontent.com/r/",
    );
    if !production && !sandbox {
        return Err(String::from_str("Value of parameter 'redirect_uri' is invalid."));
    }
    let internal_state = random_alphanumeric(64);
    db.oauth_states.push(
        OAuthState {
            internal_state: internal_state.clone(),
            oauth_state: String::from_str(state_param),
            oauth_redirect_uri: String::from_str(redirect_uri_param),
        },
    );
    proof {
        assert(db.oauth_states@.subrange(0, old(db).oauth_states@.len() as int) =~= old(
            db,
        ).oauth_states@);
    }
    let mut url = String::from_str(env.host.as_str());
    url.append("/static/login/login.html?is_oauth=true&state=");
    url.append(internal_state.as_str());
    Ok(url)
}

/// The status consent completion ends with: 404 when the internal state is
/// unknown (or already consumed), 401 when the session resolves to no
/// account, 200 otherwise.
pub open spec fn finish_status(
    states: Seq<OAuthState>,
    users: Seq<Account>,
    internal_state: Seq<char>,
    session_id: Seq<char>,
) -> int {
    if find_first(states, state_by_key(internal_state)) is None {
        404
    } else if find_first(users, by_session(session_id)) is None {
        401
    } else {
        200
    }
}

/// Completes the consent step: trades the single-use internal state and a
/// valid session for a fresh 64-character authorization code, and returns
/// the consumer redirect carrying `code` and the consumer's `state`.
pub fn post_finish(db: &mut Database, form: &FinishFlowForm) -> (r: FinishResponse)
    ensures
        r.status == finish_status(
            old(db).oauth_states@,
            old(db).users@,
            form.internal_state@,
            form.session_id@,
        ),
        r.status != 200 ==> r.redirect_uri is None && *final(db) == *old(db),
        r.status == 200 ==> ({
            let st = find_first(old(db).oauth_states@, state_by_key(form.internal_state@)).unwrap();
            let acct = find_first(old(db).users@, by_session(form.session_id@)).unwrap();
            let codes = final(db).oauth_authorization_codes@;
            &&& final(db).oauth_states@ == remove_all(
                old(db).oauth_states@,
                state_by_key(form.internal_state@),
            )
            &&& find_first(final(db).oauth_states@, state_by_key(form.internal_state@)) is None
            &&& codes.len() > 0
            &&& ({
                let row = codes.last();
                &&& is_token(row.authorization_code@, 64)
                &&& row.user_id@ == acct.user_id@
                &&& codes == remove_all(
                    old(db).oauth_authorization_codes@,
                    code_consumed(row.user_id@, row.authorization_code@),
                ).push(row)
                &&& (r.redirect_uri matches Some(u) && u@ == st.oauth_redirect_uri@ + "?code="@
                    + row.authorization_code@ + "&state="@ + st.oauth_state@)
            })
            &&& *final(db) == (Database {
                oauth_states: final(db).oauth_states,
                oauth_authorization_codes: final(db).oauth_authorization_codes,
                ..*old(db)
            })
        }),
{
    let (oauth_state, oauth_redirect_uri) = match db.find_oauth_state(form.internal_state.as_str())
        {
        Some(st) => (st.oauth_state.clone(), st.oauth_redirect_uri.clone()),
        None => {
            return FinishResponse { status: 404, redirect_uri: None };
        },
    };
    let user_id = match db.find_account_by_session(form.session_id.as_str()) {
        Some(a) => a.user_id.clone(),
        None => {
            return FinishResponse { status: 401, redirect_uri: None };
        },
    };
    let authorization_code = random_alphanumeric(64);
    db.delete_authorization_codes(user_id.as_str(), authorization_code.as_str());
    db.oauth_authorization_codes.push(
        AuthorizationCode { user_id, authorization_code: authorization_code.clone() },
    );
    db.delete_oauth_states(form.internal_state.as_str());
    proof {
        lemma_find_first_remove_all(
            old(db).oauth_states@,
            state_by_key(form.internal_state@),
            state_by_key(form.internal_state@),
        );
    }
    let mut redirect = String::from_str(oauth_redirect_uri.as_str());
    redirect.append("?code=");
    redirect.append(authorization_code.as_str());
    redirect.append("&state=");
    redirect.append(oauth_state.as_str());
    FinishResponse { status: 200, redirect_uri: Some(redirect) }
}

/// How the token endpoint decides, before any token is minted.
#[derive(PartialEq, Eq, Structural, Clone, Copy, Debug)]
pub enum TokenDecision {
    BadRequest,
    InvalidGrant,
    Exchange,
    Refresh,
}

/// The decision the token endpoint's validation chain reaches.
pub open spec fn token_decision(
    client_id: Option<Seq<char>>,
    client_secret: Option<Seq<char>>,
    grant_type: Option<Seq<char>>,
    code: Option<Seq<char>>,
    redirect_uri: Option<Seq<char>>,
    refresh_token: Option<Seq<char>>,
    expected_id: Seq<char>,
    expected_secret: Seq<char>,
    host: Seq<char>,
    codes: Seq<AuthorizationCode>,
    grants: Seq<Grant>,
) -> TokenDecision {
    if client_id is None {
        TokenDecision::BadRequest
    } else if client_id.unwrap() != expected_id {
        TokenDecision::InvalidGrant
    } else if client_secret is None {
        TokenDecision::BadRequest
    } else if client_secret.unwrap() != expected_secret {
        TokenDecision::InvalidGrant
    } else if grant_type is None {
        TokenDecision::BadRequest
    } else if grant_type.unwrap() == "authorization_code"@ {
        if code is None {
            TokenDecision::BadRequest
        } else if redirect_uri is None {
            TokenDecision::BadRequest
        } else if redirect_uri.unwrap() != host + "/oauth/login"@ {
            TokenDecision::InvalidGrant
        } else if find_first(codes, code_by_value(code.unwrap())) is None {
            TokenDecision::InvalidGrant
        } else {
            TokenDecision::Exchange
        }
    } else if grant_type.unwrap() == "refresh_token"@ {
        if refresh_token is None {
            TokenDecision::BadRequest
        } else if find_first(grants, grant_by_refresh(refresh_token.unwrap())) is None {
            TokenDecision::InvalidGrant
        } else {
            TokenDecision::Refresh
        }
    } else {
        TokenDecision::BadRequest
    }
}

/// The body of the 400 answer, when the decision is `BadRequest`.
pub open spec fn token_bad_request_msg(
    client_id: Option<Seq<char>>,
    client_secret: Option<Seq<char>>,
    grant_type: Option<Seq<char>>,
    code: Option<Seq<char>>,
    refresh_token: Option<Seq<char>>,
) -> Seq<char> {
    if client_id is None {
        "Missing parameter 'client_id'"@
    } else if client_secret is None {
        "Missing parameter 'client_secret'"@
    } else if grant_type is None {
        "Missing parameter 'grant_type'"@
    } else if grant_type.unwrap() == "authorization_code"@ {
        if code is None {
            "Missing parameter 'code'"@
        } else {
            "Missing parameter 'redirect_uri'"@
        }
    } else if grant_type.unwrap() == "refresh_token"@ {
        "Missing parameter 'refresh_token'"@
    } else {
        "Invalid value for parameter 'grant_type'"@
    }
}

/// The token endpoint: exchanges an authorization code for a fresh grant
/// (consuming the code), or rotates a grant's access token by its refresh
/// token. Every issued access token expires 3600 seconds after `now`, and
/// the token type is always `Bearer`.
pub fn post_token(
    db: &mut Database,
    creds: &OAuthCredentials,
    env: &Environment,
    client_id: Option<&str>,
    client_secret: Option<&str>,
    grant_type: Option<&str>,
    code: Option<&str>,
    redirect_uri: Option<&str>,
    refresh_token: Option<&str>,
    now: i64,
) -> (r: TokenOutcome)
    requires
        now <= i64::MAX - 3600,
    ensures
        ({
            let decision = token_decision(
                view_opt(client_id),
                view_opt(client_secret),
                view_opt(grant_type),
                view_opt(code),
                view_opt(redirect_uri),
                view_opt(refresh_token),
                creds.client_id@,
                creds.client_secret@,
                env.host@,
                old(db).oauth_authorization_codes@,
                old(db).oauth_grants@,
            );
            match r {
                TokenOutcome::BadRequest(m) => {
                    &&& decision == TokenDecision::BadRequest
                    &&& m@ == token_bad_request_msg(
                        view_opt(client_id),
                        view_opt(client_secret),
                        view_opt(grant_type),
                        view_opt(code),
                        view_opt(refresh_token),
                    )
                    &&& *final(db) == *old(db)
                },
                TokenOutcome::InvalidGrant => {
                    &&& decision == TokenDecision::InvalidGrant
                    &&& *final(db) == *old(db)
                },
                TokenOutcome::Issued(t) => {
                    let row = find_first(
                        old(db).oauth_authorization_codes@,
                        code_by_value(code.unwrap()@),
                    ).unwrap();
                    &&& decision == TokenDecision::Exchange
                    &&& t.token_type@ == "Bearer"@
                    &&& t.expires_in == 3600
                    &&& is_token(t.access_token@, 32)
                    &&& is_token(t.refresh_token@, 64)
                    &&& final(db).oauth_grants@.len() == old(db).oauth_grants@.len() + 1
                    &&& final(db).oauth_grants@.subrange(0, old(db).oauth_grants@.len() as int)
                        == old(db).oauth_grants@
                    &&& ({
                        let g = final(db).oauth_grants@.last();
                        &&& g.user_id@ == row.user_id@
                        &&& g.access_token@ == t.access_token@
                        &&& g.refresh_token@ == t.refresh_token@
                        &&& g.expiry == now + 3600
                    })
                    &&& final(db).oauth_authorization_codes@ == remove_all(
                        old(db).oauth_authorization_codes@,
                        code_consumed(row.user_id@, code.unwrap()@),
                    )
                    &&& find_first(
                        final(db).oauth_authorization_codes@,
                        code_by_value(code.unwrap()@),
                    ) is None
                    &&& *final(db) == (Database {
                        oauth_grants: final(db).oauth_grants,
                        oauth_authorization_codes: final(db).oauth_authorization_codes,
                        ..*old(db)
                    })
                },
                TokenOutcome::Refreshed(t) => {
                    &&& decision == TokenDecision::Refresh
                    &&& t.token_type@ == "Bearer"@
                    &&& t.expires_in == 3600
                    &&& is_token(t.access_token@, 32)
                    &&& grants_refreshed(
                        old(db).oauth_grants@,
                        final(db).oauth_grants@,
                        refresh_token.unwrap()@,
                        t.access_token@,
                        (now + 3600) as i64,
                    )
                    &&& *final(db) == (Database {
                        oauth_grants: final(db).oauth_grants,
                        ..*old(db)
                    })
                },
            }
        }),
{
    let client_id_param = match client_id {
        Some(c) => c,
        None => {
            return TokenOutcome::BadRequest(String::from_str("Missing parameter 'client_id'"));
        },
    };
    if !crate::text::str_eq(client_id_param, creds.client_id.as_str()) {
        return TokenOutcome::InvalidGrant;
    }
    let client_secret_param = match client_secret {
        Some(s) => s,
        None => {
            return TokenOutcome::BadRequest(String::from_str("Missing parameter 'client_secret'"));
        },
    };
    if !crate::text::str_eq(client_secret_param, creds.client_secret.as_str()) {
        return TokenOutcome::InvalidGrant;
    }
    let grant_type_param = match grant_type {
        Some(g) => g,
        None => {
            return TokenOutcome::BadRequest(String::from_str("Missing parameter 'grant_type'"));
        },
    };
    if crate::text::str_eq(grant_type_param, "authorization_code") {
        let code_param = match code {
            Some(c) => c,
            None => {
                return TokenOutcome::BadRequest(String::from_str("Missing parameter 'code'"));
            },
        };
        let redirect_uri_param = match redirect_uri {
            Some(u) => u,
            None => {
                return TokenOutcome::BadRequest(
                    String::from_str("Missing parameter 'redirect_uri'"),
                );
            },
        };
        let expected_redirect = crate::text::concat2(env.host.as_str(), "/oauth/login");
        if !crate::text::str_eq(redirect_uri_param, expected_redirect.as_str()) {
            return TokenOutcome::InvalidGrant;
        }
        let user_id = match db.find_authorization_code(code_param) {
            Some(c) => c.user_id.clone(),
            None => {
                return TokenOutcome::InvalidGrant;
            },
        };
        let access_token = random_alphanumeric(32);
        let refresh_token_new = random_alphanumeric(64);
        let expiry = now + 3600;
        db.oauth_grants.push(
            Grant {
                user_id: user_id.clone(),
                access_token: access_token.clone(),
                refresh_token: refresh_token_new.clone(),
                expiry,
            },
        );
        db.delete_authorization_codes(user_id.as_str(), code_param);
        proof {
            assert(db.oauth_grants@.subrange(0, old(db).oauth_grants@.len() as int) =~= old(
                db,
            ).oauth_grants@);
            lemma_find_first_remove_all(
                old(db).oauth_authorization_codes@,
                code_consumed(user_id@, code_param@),
                code_by_value(code_param@),
            );
        }
        TokenOutcome::Issued(
            TokenResponse {
                token_type: String::from_str("Bearer"),
                access_token,
                refresh_token: refresh_token_new,
                expires_in: 3600,
            },
        )
    } else if crate::text::str_eq(grant_type_param, "refresh_token") {
        let refresh_token_param = match refresh_token {
            Some(t) => t,
            None => {
                return TokenOutcome::BadRequest(
                    String::from_str("Missing parameter 'refresh_token'"),
                );
            },
        };
        if db.find_grant_by_refresh_token(refresh_token_param).is_none() {
            return TokenOutcome::InvalidGrant;
        }
        let access_token = random_alphanumeric(32);
        let expiry = now + 3600;
        db.refresh_grants(refresh_token_param, access_token.as_str(), expiry);
        TokenOutcome::Refreshed(
            RefreshTokenResponse {
                token_type: String::from_str("Bearer"),
                access_token,
                expires_in: 3600,
            },
        )
    } else {
        TokenOutcome::BadRequest(String::from_str("Invalid value for parameter 'grant_type'"))
    }
}

/// A consumed OAuth state cannot be consumed again: once consent completion
/// has deleted the internal state, a second completion with the same state
/// ends with 404, whatever session it carries.
pub proof fn lemma_state_single_use(
    old_states: Seq<OAuthState>,
    new_states: Seq<OAuthState>,
    users: Seq<Account>,
    internal_state: Seq<char>,
    session_id: Seq<char>,
)
    requires
        new_states == remove_all(old_states, state_by_key(internal_state)),
    ensures
        finish_status(new_states, users, internal_state, session_id) == 404,
{
    lemma_find_first_remove_all(
        old_states,
        state_by_key(internal_state),
        state_by_key(internal_state),
    );
}

/// At most one authorization code is outstanding per account: consent
/// completion first clears the account's codes and then stores the fresh
/// one, so afterwards the fresh code is the account's only one.
pub proof fn lemma_one_code_per_account(
    old_codes: Seq<AuthorizationCode>,
    new_codes: Seq<AuthorizationCode>,
    row: AuthorizationCode,
)
    requires
        new_codes == remove_all(
            old_codes,
            code_consumed(row.user_id@, row.authorization_code@),
        ).push(row),
    ensures
        forall|i: int|
            0 <= i < new_codes.len() - 1 ==> (#[trigger] new_codes[i]).user_id@ != row.user_id@,
{
    let p = code_consumed(row.user_id@, row.authorization_code@);
    crate::database::lemma_remove_all_excludes(old_codes, p);
    assert forall|i: int|
        0 <= i < new_codes.len() - 1 implies (#[trigger] new_codes[i]).user_id@
        != row.user_id@ by {
        assert(new_codes[i] == remove_all(old_codes, p)[i]);
        assert(!p(remove_all(old_codes, p)[i]));
    }
}

/// An exchanged authorization code cannot be exchanged again: once the
/// exchange has deleted the account's codes, a second exchange of the same
/// code finds nothing and its decision is `invalid_grant`.
pub proof fn lemma_code_single_use(
    old_codes: Seq<AuthorizationCode>,
    new_codes: Seq<AuthorizationCode>,
    grants: Seq<Grant>,
    user_id: Seq<char>,
    code: Seq<char>,
    client_id: Seq<char>,
    client_secret: Seq<char>,
    host: Seq<char>,
)
    requires
        new_codes == remove_all(old_codes, code_consumed(user_id, code)),
    ensures
        find_first(new_codes, code_by_value(code)) is None,
        token_decision(
            Some(client_id),
            Some(client_secret),
            Some("authorization_code"@),
            Some(code),
            Some(host + "/oauth/login"@),
            None,
            client_id,
            client_secret,
            host,
            new_codes,
            grants,
        ) == TokenDecision::InvalidGrant,
{
    lemma_find_first_remove_all(old_codes, code_consumed(user_id, code), code_by_value(code));
}

} // verus!
