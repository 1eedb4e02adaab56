//! Linking a third-party service to an account, and listing services.

use vstd::prelude::*;

verus! {

use crate::common::service::Credentials;
use crate::common::service::create_service;
use crate::common::service::set_password_credentials;
use crate::common::user::User;
use crate::common::user::get_user;
use crate::config::ServicesConfig;
use crate::crypto::is_token;
use crate::crypto::mc_decrypt_of;
use crate::crypto::mc_encrypt_of;
use crate::crypto::random_alphanumeric;
use crate::database::Database;
use crate::database::ServiceRow;
use crate::database::by_session;
use crate::database::find_first;
use crate::services::honeywell::CredentialCheck;
use crate::types::service::PasswordProtectedService;
use crate::types::service::Service;

/// The response body of the add-service endpoint.
#[derive(Debug)]
pub struct AddServiceResponse {
    pub status: i16,
    pub service_id: Option<String>,
}

/// The request body of the add-service endpoint: a session and the
/// type-specific service payload.
pub struct AddServiceRequest<T> {
    pub session_id: String,
    pub service: T,
}

/// The response body of the get-services endpoint for the full catalog.
#[derive(Debug)]
pub struct GetServicesResponse {
    pub status: i16,
    pub services: Option<Vec<ServicesConfig>>,
}

/// The response body of the get-services endpoint for an account's own
/// services.
#[derive(Debug)]
pub struct GetUserServiceResponse {
    pub status: i16,
    pub services: Vec<UserService>,
}

/// One service an account owns, joined with its catalog entry.
#[derive(Debug)]
pub struct UserService {
    pub service_id: String,
    pub config: ServicesConfig,
}

/// The request body of the get-services endpoint.
#[derive(Debug)]
pub struct GetServicesRequest {
    pub session_id: String,
    pub only_owned: bool,
}

/// The first step of adding a service: either the session resolves to no
/// account and the request is answered 401 at once, or the credentials of
/// the named service must be checked against the third party before the
/// service can be stored.
#[derive(Debug)]
pub enum AddServiceStep {
    Denied(AddServiceResponse),
    NeedsCredentialCheck(User),
}

/// Begins adding a service: resolves the session, and asks for a
/// credential check when it resolves. Every service type currently known
/// authenticates by password, so every authorized request proceeds to the
/// check.
pub fn post_add_begin(db: &Database, session_id: &str, service: &Service) -> (r: AddServiceStep)
    ensures
        match find_first(db.users@, by_session(session_id@)) {
            None => r matches AddServiceStep::Denied(resp) && resp.status == 401
                && resp.service_id is None,
            Some(a) => r matches AddServiceStep::NeedsCredentialCheck(u) && u.user_id@
                == a.user_id@,
        },
{
    match get_user(session_id, db) {
        None => AddServiceStep::Denied(AddServiceResponse { status: 401, service_id: None }),
        Some(user) => match service.service_type {
            crate::types::service::ServiceType::HONEYWELL => AddServiceStep::NeedsCredentialCheck(
                user,
            ),
        },
    }
}

/// Finishes adding a password-protected service once the third party has
/// answered: a validator error is status 600, a rejection 700; accepted
/// credentials store a fresh 64-character service id for the account
/// together with the encrypted username and password, and answer 200 with
/// that id.
pub fn post_add_finish(
    db: &mut Database,
    pepper: &str,
    user: &User,
    service: &PasswordProtectedService,
    login_check: CredentialCheck,
) -> (r: AddServiceResponse)
    ensures
        login_check == CredentialCheck::Error ==> r.status == 600 && r.service_id is None
            && *final(db) == *old(db),
        login_check == CredentialCheck::Rejected ==> r.status == 700 && r.service_id is None
            && *final(db) == *old(db),
        login_check == CredentialCheck::Accepted ==> ({
            &&& r.status == 200
            &&& (r.service_id matches Some(sid) && is_token(sid@, 64))
            &&& ({
                let sid = r.service_id.unwrap()@;
                let rows = final(db).services@;
                let creds = final(db).services_password_credentials@;
                &&& rows.len() == old(db).services@.len() + 1
                &&& rows.subrange(0, old(db).services@.len() as int) == old(db).services@
                &&& rows.last().user_id@ == user.user_id@
                &&& rows.last().service_id@ == sid
                &&& rows.last().identifier == service.service_type
                &&& creds.len() == old(db).services_password_credentials@.len() + 1
                &&& creds.subrange(0, old(db).services_password_credentials@.len() as int) == old(
                    db,
                ).services_password_credentials@
                &&& creds.last().service_id@ == sid
                &&& creds.last().username@ == mc_encrypt_of(pepper@, service.username@)
                &&& creds.last().password@ == mc_encrypt_of(pepper@, service.password@)
                &&& mc_decrypt_of(pepper@, creds.last().username@) == Some(service.username@)
                &&& mc_decrypt_of(pepper@, creds.last().password@) == Some(service.password@)
            })
            &&& *final(db) == (Database {
                services: final(db).services,
                services_password_credentials: final(db).services_password_credentials,
                ..*old(db)
            })
        }),
{
    match login_check {
        CredentialCheck::Error => AddServiceResponse { status: 600, service_id: None },
        CredentialCheck::Rejected => AddServiceResponse { status: 700, service_id: None },
        CredentialCheck::Accepted => {
            let service_id = random_alphanumeric(64);
            create_service(db, user.user_id.clone(), service_id.clone(), service.service_type);
            set_password_credentials(
                db,
                pepper,
                service_id.clone(),
                Credentials {
                    username: service.username.clone(),
                    password: service.password.clone(),
                },
            );
            AddServiceResponse { status: 200, service_id: Some(service_id) }
        },
    }
}

/// The catalog entries matching one service row: one pair per catalog entry
/// of the row's service type, in catalog order.
pub open spec fn config_pairs(row: ServiceRow, configs: Seq<ServicesConfig>) -> Seq<
    (Seq<char>, ServicesConfig),
>
    decreases configs.len(),
{
    if configs.len() == 0 {
        Seq::empty()
    } else {
        let rest = config_pairs(row, configs.drop_first());
        if configs[0].identifier == row.identifier {
            seq![(row.service_id@, configs[0])] + rest
        } else {
            rest
        }
    }
}

/// An account's services joined against the catalog: for each of the
/// account's rows, in store order, its matching catalog entries.
pub open spec fn joined_services(
    rows: Seq<ServiceRow>,
    user_id: Seq<char>,
    configs: Seq<ServicesConfig>,
) -> Seq<(Seq<char>, ServicesConfig)>
    decreases rows.len(),
{
    if rows.len() == 0 {
        Seq::empty()
    } else {
        let rest = joined_services(rows.drop_first(), user_id, configs);
        if rows[0].user_id@ == user_id {
            config_pairs(rows[0], configs) + rest
        } else {
            rest
        }
    }
}

/// The returned list carries exactly these pairs: each entry's id and
/// catalog entry, in order.
pub open spec fn services_match(
    list: Seq<UserService>,
    pairs: Seq<(Seq<char>, ServicesConfig)>,
) -> bool {
    &&& list.len() == pairs.len()
    &&& forall|i: int|
        0 <= i < list.len() ==> (#[trigger] list[i]).service_id@ == pairs[i].0 && list[i].config
            == pairs[i].1
}

proof fn lemma_config_pairs_push(row: ServiceRow, configs: Seq<ServicesConfig>, c: ServicesConfig)
    ensures
        c.identifier == row.identifier ==> config_pairs(row, configs.push(c)) =~= config_pairs(
            row,
            configs,
        ) + seq![(row.service_id@, c)],
        c.identifier != row.identifier ==> config_pairs(row, configs.push(c)) =~= config_pairs(
            row,
            configs,
        ),
    decreases configs.len(),
{
    if configs.len() == 0 {
        let t = configs.push(c);
        assert(t.len() == 1);
        assert(t[0] == c);
        assert(t.drop_first() =~= Seq::<ServicesConfig>::empty());
        assert(config_pairs(row, t.drop_first()) =~= Seq::<(Seq<char>, ServicesConfig)>::empty());
        assert(config_pairs(row, configs) =~= Seq::<(Seq<char>, ServicesConfig)>::empty());
        if c.identifier == row.identifier {
            assert(config_pairs(row, t) =~= seq![(row.service_id@, c)] + config_pairs(
                row,
                t.drop_first(),
            ));
            assert(config_pairs(row, t) =~= config_pairs(row, configs) + seq![
                (row.service_id@, c),
            ]);
        } else {
            assert(config_pairs(row, t) =~= config_pairs(row, t.drop_first()));
        }
    } else {
        assert(configs.push(c)[0] == configs[0]);
        assert(configs.push(c).drop_first() =~= configs.drop_first().push(c));
        lemma_config_pairs_push(row, configs.drop_first(), c);
        if configs[0].identifier == row.identifier && c.identifier == row.identifier {
            assert(seq![(row.service_id@, configs[0])] + (config_pairs(row, configs.drop_first())
                + seq![(row.service_id@, c)]) =~= (seq![(row.service_id@, configs[0])]
                + config_pairs(row, configs.drop_first())) + seq![(row.service_id@, c)]);
        }
    }
}

proof fn lemma_joined_push(
    rows: Seq<ServiceRow>,
    user_id: Seq<char>,
    configs: Seq<ServicesConfig>,
    row: ServiceRow,
)
    ensures
        row.user_id@ == user_id ==> joined_services(rows.push(row), user_id, configs)
            =~= joined_services(rows, user_id, configs) + config_pairs(row, configs),
        row.user_id@ != user_id ==> joined_services(rows.push(row), user_id, configs)
            =~= joined_services(rows, user_id, configs),
    decreases rows.len(),
{
    let t = rows.push(row);
    if rows.len() == 0 {
        assert(t.len() == 1);
        assert(t[0] == row);
        assert(t.drop_first() =~= Seq::<ServiceRow>::empty());
        assert(joined_services(t.drop_first(), user_id, configs) =~= Seq::<
            (Seq<char>, ServicesConfig),
        >::empty());
        assert(joined_services(rows, user_id, configs) =~= Seq::<
            (Seq<char>, ServicesConfig),
        >::empty());
        if row.user_id@ == user_id {
            assert(joined_services(t, user_id, configs) =~= config_pairs(row, configs)
                + joined_services(t.drop_first(), user_id, configs));
            assert(joined_services(t, user_id, configs) =~= joined_services(
                rows,
                user_id,
                configs,
            ) + config_pairs(row, configs));
        } else {
            assert(joined_services(t, user_id, configs) =~= joined_services(
                t.drop_first(),
                user_id,
                configs,
            ));
        }
    } else {
        assert(t[0] == rows[0]);
        assert(t.drop_first() =~= rows.drop_first().push(row));
        lemma_joined_push(rows.drop_first(), user_id, configs, row);
        if row.user_id@ == user_id {
            assert(joined_services(t.drop_first(), user_id, configs) =~= joined_services(
                rows.drop_first(),
                user_id,
                configs,
            ) + config_pairs(row, configs));
            if rows[0].user_id@ == user_id {
                assert(joined_services(t, user_id, configs) =~= config_pairs(rows[0], configs)
                    + joined_services(t.drop_first(), user_id, configs));
                assert(config_pairs(rows[0], configs) + (joined_services(
                    rows.drop_first(),
                    user_id,
                    configs,
                ) + config_pairs(row, configs)) =~= (config_pairs(rows[0], configs)
                    + joined_services(rows.drop_first(), user_id, configs)) + config_pairs(
                    row,
                    configs,
                ));
            } else {
                assert(joined_services(t, user_id, configs) =~= joined_services(
                    t.drop_first(),
                    user_id,
                    configs,
                ));
            }
        } else {
            assert(joined_services(t.drop_first(), user_id, configs) =~= joined_services(
                rows.drop_first(),
                user_id,
                configs,
            ));
            if rows[0].user_id@ == user_id {
                assert(joined_services(t, user_id, configs) =~= config_pairs(rows[0], configs)
                    + joined_services(t.drop_first(), user_id, configs));
            } else {
                assert(joined_services(t, user_id, configs) =~= joined_services(
                    t.drop_first(),
                    user_id,
                    configs,
                ));
            }
        }
    }
}

/// How the get-services endpoint answers.
#[derive(Debug)]
pub enum GetServicesOutcome {
    /// The session resolves to no account.
    Unauthorized(GetServicesResponse),
    /// The full read-only catalog.
    All(GetServicesResponse),
    /// The account's own services joined against the catalog.
    Owned(GetUserServiceResponse),
}

/// Lists services: the full catalog when `only_owned` is false, otherwise
/// the account's own services, each joined with every catalog entry of its
/// type.
#[verifier::loop_isolation(false)]
pub fn post_get(db: &Database, configs: &Vec<ServicesConfig>, request: &GetServicesRequest) -> (r:
    GetServicesOutcome)
    ensures
        match find_first(db.users@, by_session(request.session_id@)) {
            None => r matches GetServicesOutcome::Unauthorized(resp) && resp.status == 401
                && resp.services is None,
            Some(a) => {
                if request.only_owned {
                    r matches GetServicesOutcome::Owned(resp) && resp.status == 200
                        && services_match(
                        resp.services@,
                        joined_services(db.services@, a.user_id@, configs@),
                    )
                } else {
                    r matches GetServicesOutcome::All(resp) && resp.status == 200
                        && (resp.services matches Some(list) && list@ == configs@)
                }
            },
        },
{
    let user = match get_user(request.session_id.as_str(), db) {
        Some(u) => u,
        None => {
            return GetServicesOutcome::Unauthorized(
                GetServicesResponse { status: 401, services: None },
            );
        },
    };
    if request.only_owned {
        let mut result: Vec<UserService> = Vec::new();
        let mut i: usize = 0;
        while i < db.services.len()
            invariant
                i <= db.services@.len(),
                services_match(
                    result@,
                    joined_services(db.services@.subrange(0, i as int), user.user_id@, configs@),
                ),
            decreases db.services@.len() - i,
        {
            proof {
                assert(db.services@.subrange(0, i + 1) =~= db.services@.subrange(0, i as int).push(
                    db.services@[i as int],
                ));
                lemma_joined_push(
                    db.services@.subrange(0, i as int),
                    user.user_id@,
                    configs@,
                    db.services@[i as int],
                );
            }
            let row = &db.services[i];
            if crate::text::str_eq(row.user_id.as_str(), user.user_id.as_str()) {
                let ghost done = joined_services(
                    db.services@.subrange(0, i as int),
                    user.user_id@,
                    configs@,
                );
                let mut j: usize = 0;
                while j < configs.len()
                    invariant
                        j <= configs@.len(),
                        services_match(
                            result@,
                            done + config_pairs(
                                db.services@[i as int],
                                configs@.subrange(0, j as int),
                            ),
                        ),
                    decreases configs@.len() - j,
                {
                    proof {
                        assert(configs@.subrange(0, j + 1) =~= configs@.subrange(0, j as int).push(
                            configs@[j as int],
                        ));
                        lemma_config_pairs_push(
                            db.services@[i as int],
                            configs@.subrange(0, j as int),
                            configs@[j as int],
                        );
                    }
                    let config = &configs[j];
                    if config.identifier == row.identifier {
                        result.push(
                            UserService {
                                service_id: row.service_id.clone(),
                                config: config.duplicate(),
                            },
                        );
                        proof {
                            assert(done + (config_pairs(
                                db.services@[i as int],
                                configs@.subrange(0, j as int),
                            ) + seq![(db.services@[i as int].service_id@, configs@[j as int])])
                                =~= (done + config_pairs(
                                db.services@[i as int],
                                configs@.subrange(0, j as int),
                            )).push((db.services@[i as int].service_id@, configs@[j as int])));
                        }
                    }
                    j = j + 1;
                }
                proof {
                    assert(configs@.subrange(0, configs@.len() as int) =~= configs@);
                }
            }
            i = i + 1;
        }
        proof {
            assert(db.services@.subrange(0, db.services@.len() as int) =~= db.services@);
        }
        GetServicesOutcome::Owned(GetUserServiceResponse { status: 200, services: result })
    } else {
        let catalog = crate::config::clone_configs(configs);
        GetServicesOutcome::All(GetServicesResponse { status: 200, services: Some(catalog) })
    }
}

} // verus!
