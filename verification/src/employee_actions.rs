//! The flows of the employee namespace: registration behind an
//! authorization gate, login and token validation.

use vstd::prelude::*;
use crate::credentials::{
    CredentialsHolder, CredentialsPair, IdentityHolder, may_hash_to, verification,
};
use crate::employee::{
    EmployeeInfoModel, EmployeeInfoView, EmployeeLogin, EmployeeLoginView, EmployeeSession, NewEmployeeInfo,
};
use crate::errors::{
    AuthenticationError, CredentialsCreationError, DatabaseError, LoginError,
    SessionRetrievalError, UserRegistrationError,
};
use crate::model::{
    newest_valid_session_of, rows_view, session_by_token, StoreView, valid_owner_flags, viewed,
    viewed_result,
};
use crate::search::{is_last_true, lemma_last_true_is, lemma_none_true};
use crate::request::{EmployeeLoginRequestResponse, EmployeeRegisterRequest};
use crate::session::{NewSession, Session, Timestamp};
use crate::store::IdentityStore;
use crate::text::same_text;
use crate::token::{is_token, lemma_token_exists};

verus! {

/// The code that authorizes the registration of an employee without any
/// session.
pub open spec fn bootstrap_code() -> Seq<char> {
    "ROOT"@
}

/// Which employee `key` and `secret` authenticate. A wrong secret is
/// answered like an unknown login key.
pub open spec fn employee_authentication(store: StoreView, key: Seq<char>, secret: Seq<char>) -> Result<
    EmployeeLoginView,
    LoginError,
> {
    match store.employee_by_key(key) {
        None => Err(LoginError::Authentication(AuthenticationError::UserNotFound)),
        Some(employee) => match verification(employee.hash, secret) {
            Err(e) => Err(LoginError::Authentication(AuthenticationError::Verification(e))),
            Ok(false) => Err(LoginError::Authentication(AuthenticationError::UserNotFound)),
            Ok(true) => Ok(employee),
        },
    }
}

/// What an employee's login with `key` and `secret` at `now` does, where
/// `fresh` is the token that is drawn if a session has to be minted: the
/// newest of the account's sessions that are still valid is reused, and a
/// session is minted only where the account has no valid one.
pub open spec fn employee_login_outcome(
    store: StoreView,
    key: Seq<char>,
    secret: Seq<char>,
    now: Timestamp,
    fresh: Seq<char>,
) -> (Result<(EmployeeLoginView, Seq<char>), LoginError>, StoreView) {
    match employee_authentication(store, key, secret) {
        Err(e) => (Err(e), store),
        Ok(employee) => match newest_valid_session_of(store.employee_sessions, employee.id, now) {
            Some(session) => (Ok((employee, session.token)), store),
            None => match NewSession::minted(fresh, now) {
                Err(e) => (Err(LoginError::SessionCreation(e)), store),
                Ok((token, expires)) => match store.with_employee_session(employee.id, token, expires) {
                    Err(e) => (Err(LoginError::Db(e)), store),
                    Ok(next) => (Ok((employee, token)), next),
                },
            },
        },
    }
}

/// Whose token `token` is at `now` in the employee namespace. The account
/// is resolved before the expiry is looked at.
pub open spec fn employee_token_validation(store: StoreView, token: Seq<char>, now: Timestamp) -> Result<
    (EmployeeLoginView, Seq<char>),
    SessionRetrievalError,
> {
    match session_by_token(store.employee_sessions, token) {
        None => Err(SessionRetrievalError::InvalidSession),
        Some(session) => match store.employee_by_id(session.owner) {
            None => Err(SessionRetrievalError::Db(DatabaseError::NotFound)),
            Some(employee) => if session.valid_at(now) {
                Ok((employee, session.token))
            } else {
                Err(SessionRetrievalError::InvalidSession)
            },
        },
    }
}

/// Whether `code` authorizes the registration of an employee at `now`: it
/// is the bootstrap code, or the token of a valid employee session.
pub open spec fn registration_authorized(store: StoreView, code: Seq<char>, now: Timestamp) -> Result<
    (),
    UserRegistrationError,
> {
    if code == bootstrap_code() {
        Ok(())
    } else {
        match employee_token_validation(store, code, now) {
            Ok(_) => Ok(()),
            Err(e) => Err(UserRegistrationError::Auth(e)),
        }
    }
}

/// What inserting an employee account for the profile `info_id` does,
/// where `hashed` is the outcome of hashing its secret.
pub open spec fn employee_insertion(
    store: StoreView,
    info_id: u64,
    key: Seq<char>,
    hashed: Result<Seq<char>, CredentialsCreationError>,
) -> (Result<(), UserRegistrationError>, StoreView) {
    match hashed {
        Err(e) => (Err(UserRegistrationError::UserCreation(e)), store),
        Ok(hash) => match store.with_employee_login(info_id, key, hash) {
            Err(e) => (Err(UserRegistrationError::Db(e)), store),
            Ok(next) => (Ok(()), next),
        },
    }
}

/// What the registration of an employee does, where `hashed` is the
/// outcome of hashing the secret: the profile is inserted, and the account
/// is inserted for that very profile, by the id the profile was given.
/// The profile stays where a later step fails.
pub open spec fn employee_registration(
    store: StoreView,
    firstname: Seq<char>,
    lastname: Seq<char>,
    key: Seq<char>,
    hashed: Result<Seq<char>, CredentialsCreationError>,
) -> (Result<(), UserRegistrationError>, StoreView) {
    match store.with_employee_info(firstname, lastname) {
        Err(e) => (Err(UserRegistrationError::Db(e)), store),
        Ok(with_profile) => employee_insertion(with_profile, with_profile.last_employee_info_id, key, hashed),
    }
}

/// Inserts an employee account for the profile `info_id`, where `hashed`
/// is the outcome of hashing its secret.
pub fn insert_hashed_employee(
    db: &mut IdentityStore,
    info_id: u64,
    key: &str,
    hashed: Result<String, CredentialsCreationError>,
) -> (inserted: Result<(), UserRegistrationError>)
    ensures
        final(db)@.wf(),
        (inserted, final(db)@) == employee_insertion(old(db)@, info_id, key@, viewed_result(hashed)),
{
    proof {
        use_type_invariant(&*db);
    }
    match hashed {
        Err(e) => Err(UserRegistrationError::UserCreation(e)),
        Ok(hash) => match db.create_employee_login(info_id, key, hash.as_str()) {
            Err(e) => Err(UserRegistrationError::Db(e)),
            Ok(()) => Ok(()),
        },
    }
}

/// Registers an employee: inserts the profile, hashes the secret and
/// inserts the account for the profile just inserted. Whatever the
/// hashing gave, the outcome is the one that `employee_registration` has
/// for it.
pub fn register_employee(db: &mut IdentityStore, employee_data: &NewEmployeeInfo, credentials: &CredentialsPair) -> (registered:
    Result<(), UserRegistrationError>)
    ensures
        final(db)@.wf(),
        exists|hashed: Result<Seq<char>, CredentialsCreationError>|
            may_hash_to(credentials.secret(), hashed) && (registered, final(db)@)
                == #[trigger] employee_registration(
                old(db)@,
                employee_data.firstname@,
                employee_data.lastname@,
                credentials.key(),
                hashed,
            ),
{
    proof {
        use_type_invariant(&*db);
    }
    let ghost unhashed = Err::<Seq<char>, CredentialsCreationError>(CredentialsCreationError::RNG);
    let firstname = employee_data.firstname.as_str();
    let lastname = employee_data.lastname.as_str();
    match db.create_employee_info(firstname, lastname) {
        Err(e) => {
            proof {
                assert((Err::<(), UserRegistrationError>(UserRegistrationError::Db(e)), db@)
                    == employee_registration(old(db)@, firstname@, lastname@, credentials.key(), unhashed));
            }
            Err(UserRegistrationError::Db(e))
        },
        Ok(profile) => {
            let hashed = credentials.create_hash();
            let ghost hashing = viewed_result(hashed);
            let registered = insert_hashed_employee(db, profile.id, credentials.get_key(), hashed);
            proof {
                assert((registered, db@) == employee_registration(
                    old(db)@,
                    firstname@,
                    lastname@,
                    credentials.key(),
                    hashing,
                ));
            }
            registered
        },
    }
}

/// The newest session of `owner` among `rows` that is valid at `now`.
pub fn newest_valid_employee_session(rows: &Vec<EmployeeSession>, owner: u64, now: &Timestamp) -> (found:
    Option<EmployeeSession>)
    ensures
        viewed(found) == newest_valid_session_of(rows_view(rows@), owner, *now),
{
    let ghost flags = valid_owner_flags(rows_view(rows@), owner, *now);
    let mut i: usize = rows.len();
    while i > 0
        invariant
            i <= rows@.len(),
            flags == valid_owner_flags(rows_view(rows@), owner, *now),
            forall|j: int| i <= j < flags.len() ==> !#[trigger] flags[j],
        decreases i,
    {
        i = i - 1;
        if rows[i].e_id == owner && rows[i].is_valid(now) {
            proof {
                assert(is_last_true(flags, i as int));
                lemma_last_true_is(flags, i as int);
            }
            return Some(rows[i].clone());
        }
    }
    proof {
        lemma_none_true(flags);
    }
    None
}

/// Logs an employee in at `now`: authenticates the credentials, then
/// reuses the newest of the account's sessions that are still valid and
/// mints one only where it has none. Whatever token was drawn, the outcome is the
/// one that `employee_login_outcome` has for it.
pub fn login_employee(db: &mut IdentityStore, credentials: &CredentialsPair, now: Timestamp) -> (logged_in:
    Result<EmployeeLoginRequestResponse, LoginError>)
    ensures
        final(db)@.wf(),
        exists|fresh: Seq<char>|
            is_token(fresh) && (viewed_result(logged_in), final(db)@) == #[trigger] employee_login_outcome(
                old(db)@,
                credentials.key(),
                credentials.secret(),
                now,
                fresh,
            ),
{
    proof {
        use_type_invariant(&*db);
    }
    let ghost key = credentials.key();
    let ghost secret = credentials.secret();
    proof {
        lemma_token_exists();
    }
    let ghost any = choose|fresh: Seq<char>| is_token(fresh);
    let employee = match db.find_employee_by_key(credentials.get_key()) {
        None => {
            let logged_in = Err(LoginError::Authentication(AuthenticationError::UserNotFound));
            proof {
                assert((viewed_result::<EmployeeLoginRequestResponse, LoginError>(logged_in), db@)
                    == employee_login_outcome(old(db)@, key, secret, now, any));
            }
            return logged_in;
        },
        Some(employee) => employee,
    };
    let verified = match employee.verify(credentials) {
        Err(e) => Err(LoginError::Authentication(AuthenticationError::Verification(e))),
        Ok(false) => Err(LoginError::Authentication(AuthenticationError::UserNotFound)),
        Ok(true) => Ok(()),
    };
    if let Err(e) = verified {
        let logged_in = Err(e);
        proof {
            assert((viewed_result::<EmployeeLoginRequestResponse, LoginError>(logged_in), db@)
                == employee_login_outcome(old(db)@, key, secret, now, any));
        }
        return logged_in;
    }
    if let Some(session) = newest_valid_employee_session(db.employee_sessions(), employee.id, &now) {
        let logged_in = Ok(EmployeeLoginRequestResponse { employee, new_employee_token: session.token });
        proof {
            assert((viewed_result(logged_in), db@) == employee_login_outcome(old(db)@, key, secret, now, any));
        }
        return logged_in;
    }
    let session = match NewSession::new(now) {
        Err(e) => {
            let logged_in = Err(LoginError::SessionCreation(e));
            proof {
                assert((viewed_result::<EmployeeLoginRequestResponse, LoginError>(logged_in), db@)
                    == employee_login_outcome(old(db)@, key, secret, now, any));
            }
            return logged_in;
        },
        Ok(session) => session,
    };
    let ghost fresh = session.token@;
    match db.create_employee_session(employee.id, session.token.as_str(), session.expires) {
        Err(e) => {
            let logged_in = Err(LoginError::Db(e));
            proof {
                assert((viewed_result::<EmployeeLoginRequestResponse, LoginError>(logged_in), db@)
                    == employee_login_outcome(old(db)@, key, secret, now, fresh));
            }
            logged_in
        },
        Ok(()) => {
            let logged_in = Ok(EmployeeLoginRequestResponse { employee, new_employee_token: session.token });
            proof {
                assert((viewed_result(logged_in), db@) == employee_login_outcome(old(db)@, key, secret, now, fresh));
            }
            logged_in
        },
    }
}

/// Validates an employee's bearer token at `now` and resolves the account
/// that owns its session. The store is not changed.
pub fn verify_employee(db: &IdentityStore, token: &str, now: Timestamp) -> (verified: Result<
    EmployeeLoginRequestResponse,
    SessionRetrievalError,
>)
    ensures
        viewed_result(verified) == employee_token_validation(db@, token@, now),
{
    match db.find_employee_session_by_token(token) {
        None => Err(SessionRetrievalError::InvalidSession),
        Some(session) => match db.find_employee_by_id(session.e_id) {
            None => Err(SessionRetrievalError::Db(DatabaseError::NotFound)),
            Some(employee) => if session.is_valid(&now) {
                Ok(EmployeeLoginRequestResponse { employee, new_employee_token: session.token })
            } else {
                Err(SessionRetrievalError::InvalidSession)
            },
        },
    }
}

/// The profile that the account `employee` refers to, or `NotFound`.
pub fn get_employee_info(db: &IdentityStore, employee: &EmployeeLogin) -> (found: Result<
    EmployeeInfoModel,
    SessionRetrievalError,
>)
    ensures
        viewed_result(found) == match db@.employee_info_by_id(employee.info_id) {
            Some(profile) => Ok::<EmployeeInfoView, SessionRetrievalError>(profile),
            None => Err::<EmployeeInfoView, SessionRetrievalError>(
                SessionRetrievalError::Db(DatabaseError::NotFound),
            ),
        },
{
    match db.find_employee_info_by_id(employee.info_id) {
        Some(profile) => Ok(profile),
        None => Err(SessionRetrievalError::Db(DatabaseError::NotFound)),
    }
}

/// Decides whether `code` authorizes the registration of an employee at
/// `now`.
pub fn authorize_employee_registration(db: &IdentityStore, code: &str, now: Timestamp) -> (authorized: Result<
    (),
    UserRegistrationError,
>)
    ensures
        authorized == registration_authorized(db@, code@, now),
{
    if same_text(code, "ROOT") {
        Ok(())
    } else {
        match verify_employee(db, code, now) {
            Ok(_) => Ok(()),
            Err(e) => Err(UserRegistrationError::Auth(e)),
        }
    }
}

/// Registers an employee on behalf of whoever presents the code of
/// `request`: nothing is written unless the code authorizes it.
pub fn employee_register(db: &mut IdentityStore, request: &EmployeeRegisterRequest, now: Timestamp) -> (registered:
    Result<(), UserRegistrationError>)
    ensures
        final(db)@.wf(),
        match registration_authorized(old(db)@, request.code@, now) {
            Err(e) => registered == Err::<(), UserRegistrationError>(e) && final(db)@ == old(db)@,
            Ok(()) => exists|hashed: Result<Seq<char>, CredentialsCreationError>|
                may_hash_to(request.credentials.secret(), hashed) && (registered, final(db)@)
                    == #[trigger] employee_registration(
                    old(db)@,
                    request.info.firstname@,
                    request.info.lastname@,
                    request.credentials.key(),
                    hashed,
                ),
        },
{
    proof {
        use_type_invariant(&*db);
    }
    match authorize_employee_registration(db, request.code.as_str(), now) {
        Err(e) => Err(e),
        Ok(()) => register_employee(db, &request.info, &request.credentials),
    }
}

} // verus!
