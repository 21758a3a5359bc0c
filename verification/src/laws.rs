//! What holds of the flows on every well-formed store.

use vstd::prelude::*;
use crate::actions::{
    account_id, authentication, login_outcome, registration_outcome, reusable_session,
    token_validation,
};
use crate::credentials::{may_hash_to, verification};
use crate::employee::{EmployeeInfoView, EmployeeLoginView};
use crate::employee_actions::{
    employee_authentication, employee_login_outcome, employee_registration,
    employee_token_validation,
};
use crate::errors::{
    AuthenticationError, CredentialsCreationError, CredentialsVerificationError, DatabaseError,
    LoginError, SessionRetrievalError, STATUS_FORBIDDEN, STATUS_INTERNAL_SERVER_ERROR,
    UserRegistrationError,
};
use crate::invariants::{lemma_newest_valid_later, lemma_newest_valid_push, lemma_sessions_push};
use crate::model::{
    first_session_of, newest_valid_session_of, session_by_token, sessions_wf,
    StoreView, token_flags, valid_owner_flags,
};
use crate::search::{first_true, last_true, lemma_first_true, lemma_first_true_is, lemma_last_true};
use crate::session::{expiry_from, SessionView, Timestamp};
use crate::user::{PendingView, UserView};

verus! {

/// In a well-formed table, the session found under the token of a session
/// of the table is that session.
pub proof fn lemma_token_names_its_session(sessions: Seq<SessionView>, last_id: u64, i: int)
    requires
        sessions_wf(sessions, last_id),
        0 <= i < sessions.len(),
    ensures
        session_by_token(sessions, sessions[i].token) == Some(sessions[i]),
{
    let flags = token_flags(sessions, sessions[i].token);
    assert(flags[i]);
    assert forall|j: int| 0 <= j < i implies !#[trigger] flags[j] by {
        assert(sessions[j].token != sessions[i].token);
    }
    lemma_first_true_is(flags, i);
}

/// In a well-formed store, the account found under a login key is also the
/// account found under its own id.
pub proof fn lemma_account_found_by_its_id(store: StoreView, key: Seq<char>)
    requires
        store.wf(),
        store.user_by_key(key) is Some,
    ensures
        store.user_by_id(store.user_by_key(key)->Some_0.id) == store.user_by_key(key),
{
    let by_key = store.user_key_flags(key);
    lemma_first_true(by_key);
    let i = first_true(by_key)->Some_0;
    let by_id = store.user_id_flags(store.users[i].id);
    assert(by_id[i]);
    assert forall|j: int| 0 <= j < i implies !#[trigger] by_id[j] by {
        assert(store.users[j].id != store.users[i].id);
    }
    lemma_first_true_is(by_id, i);
}

/// In a well-formed store, the employee account found under a login key is
/// also the account found under its own id.
pub proof fn lemma_employee_found_by_its_id(store: StoreView, key: Seq<char>)
    requires
        store.wf(),
        store.employee_by_key(key) is Some,
    ensures
        store.employee_by_id(store.employee_by_key(key)->Some_0.id) == store.employee_by_key(key),
{
    let by_key = store.employee_key_flags(key);
    lemma_first_true(by_key);
    let i = first_true(by_key)->Some_0;
    let by_id = store.employee_id_flags(store.employee_logins[i].id);
    assert(by_id[i]);
    assert forall|j: int| 0 <= j < i implies !#[trigger] by_id[j] by {
        assert(store.employee_logins[j].id != store.employee_logins[i].id);
    }
    lemma_first_true_is(by_id, i);
}

/// A login changes the store by at most one session: either nothing is
/// written, or exactly one session of the authenticated account is
/// appended, which carries the token returned and expires 24 hours after
/// the login. A login that fails writes nothing.
pub proof fn login_writes_at_most_one_session(
    store: StoreView,
    key: Seq<char>,
    secret: Seq<char>,
    now: Timestamp,
    fresh: Seq<char>,
)
    ensures
        ({
            let (result, after) = login_outcome(store, key, secret, now, fresh);
            &&& result is Err ==> after == store
            &&& result matches Ok((user, token)) ==> {
                ||| after == store
                ||| {
                    &&& token == fresh
                    &&& store.last_session_id < u64::MAX
                    &&& after == StoreView {
                        sessions: store.sessions.push(
                            SessionView {
                                id: (store.last_session_id + 1) as u64,
                                owner: user.id,
                                token,
                                expires: expiry_from(now)->Some_0,
                            },
                        ),
                        last_session_id: (store.last_session_id + 1) as u64,
                        ..store
                    }
                }
            }
        }),
{
}

/// Login is idempotent under reuse: where a login succeeds and the session
/// whose token it returned has not expired by the time of a later login
/// with the same credentials, the later login returns the same account
/// and the same token and writes nothing.
pub proof fn login_twice_returns_same_token(
    store: StoreView,
    key: Seq<char>,
    secret: Seq<char>,
    first_at: Timestamp,
    first_fresh: Seq<char>,
    second_at: Timestamp,
    second_fresh: Seq<char>,
)
    requires
        store.wf(),
        second_at.at_or_after(first_at),
        login_outcome(store, key, secret, first_at, first_fresh).0 is Ok,
        ({
            let (first, after) = login_outcome(store, key, secret, first_at, first_fresh);
            session_by_token(after.sessions, first->Ok_0.1) matches Some(session) && session.valid_at(second_at)
        }),
    ensures
        ({
            let (first, after) = login_outcome(store, key, secret, first_at, first_fresh);
            login_outcome(after, key, secret, second_at, second_fresh) == (first, after)
        }),
{
    let (first, after) = login_outcome(store, key, secret, first_at, first_fresh);
    let user = authentication(store, key, secret)->Ok_0;
    assert(after.user_key_flags(key) == store.user_key_flags(key));
    assert(authentication(after, key, secret) == Ok::<UserView, AuthenticationError>(user));
    lemma_newest_valid_later(store.sessions, user.id, first_at, second_at);
    match newest_valid_session_of(store.sessions, user.id, first_at) {
        Some(session) => {
            assert(after == store);
            let flags = valid_owner_flags(store.sessions, user.id, first_at);
            lemma_last_true(flags);
            let i = last_true(flags)->Some_0;
            lemma_token_names_its_session(store.sessions, store.last_session_id, i);
        },
        None => {
            let token = first->Ok_0.1;
            let expires = expiry_from(first_at)->Some_0;
            let session = SessionView { id: (store.last_session_id + 1) as u64, owner: user.id, token, expires };
            assert(after.sessions == store.sessions.push(session));
            lemma_sessions_push(store.sessions, session, token, user.id);
            lemma_newest_valid_push(store.sessions, session, user.id, second_at);
        },
    }
}

/// The token that a login returns validates, at the time of the login, to
/// the account that logged in.
pub proof fn login_token_validates(
    store: StoreView,
    key: Seq<char>,
    secret: Seq<char>,
    now: Timestamp,
    fresh: Seq<char>,
)
    requires
        store.wf(),
        login_outcome(store, key, secret, now, fresh).0 is Ok,
    ensures
        ({
            let (result, after) = login_outcome(store, key, secret, now, fresh);
            token_validation(after, result->Ok_0.1, now) == Ok::<UserView, SessionRetrievalError>(result->Ok_0.0)
        }),
{
    let (result, after) = login_outcome(store, key, secret, now, fresh);
    let user = authentication(store, key, secret)->Ok_0;
    lemma_account_found_by_its_id(store, key);
    assert(after.user_id_flags(user.id) == store.user_id_flags(user.id));
    match newest_valid_session_of(store.sessions, user.id, now) {
        Some(session) => {
            let flags = valid_owner_flags(store.sessions, user.id, now);
            lemma_last_true(flags);
            let i = last_true(flags)->Some_0;
            lemma_token_names_its_session(store.sessions, store.last_session_id, i);
        },
        None => {
            let token = result->Ok_0.1;
            let expires = expiry_from(now)->Some_0;
            let session = SessionView { id: (store.last_session_id + 1) as u64, owner: user.id, token, expires };
            assert(after.sessions == store.sessions.push(session));
            lemma_sessions_push(store.sessions, session, token, user.id);
        },
    }
}

/// A login reuses a valid session wherever the account has one: where the
/// credentials authenticate and any session of the account is valid, the
/// login succeeds, writes nothing, and returns the token of a session of
/// the account that is valid at that time.
pub proof fn login_reuses_a_valid_session(
    store: StoreView,
    key: Seq<char>,
    secret: Seq<char>,
    now: Timestamp,
    fresh: Seq<char>,
    i: int,
)
    requires
        authentication(store, key, secret) is Ok,
        0 <= i < store.sessions.len(),
        store.sessions[i].owner == authentication(store, key, secret)->Ok_0.id,
        store.sessions[i].valid_at(now),
    ensures
        ({
            let (result, after) = login_outcome(store, key, secret, now, fresh);
            let user = authentication(store, key, secret)->Ok_0;
            &&& after == store
            &&& result matches Ok((account, token))
            &&& account == user
            &&& exists|j: int|
                0 <= j < store.sessions.len() && (#[trigger] store.sessions[j]).owner == user.id
                    && store.sessions[j].valid_at(now) && store.sessions[j].token == token
        }),
{
    let user = authentication(store, key, secret)->Ok_0;
    let flags = valid_owner_flags(store.sessions, user.id, now);
    assert(flags[i]);
    lemma_last_true(flags);
    let j = last_true(flags)->Some_0;
    assert(flags[j]);
    assert(store.sessions[j].owner == user.id);
}

/// Token validation refuses a token that no session carries, and a token
/// whose session has expired, with the same error.
pub proof fn unknown_or_expired_token_is_rejected(store: StoreView, token: Seq<char>, now: Timestamp)
    ensures
        session_by_token(store.sessions, token) is None ==> token_validation(store, token, now) == Err::<
            UserView,
            SessionRetrievalError,
        >(SessionRetrievalError::InvalidSession),
        session_by_token(store.sessions, token) matches Some(session) && !session.valid_at(now)
            ==> token_validation(store, token, now) == Err::<UserView, SessionRetrievalError>(
            SessionRetrievalError::InvalidSession,
        ),
{
}

/// In a well-formed store, every token of a session that has not expired
/// is honoured, and resolves to the account that owns the session.
pub proof fn unexpired_token_is_honoured(store: StoreView, i: int, now: Timestamp)
    requires
        store.wf(),
        0 <= i < store.sessions.len(),
        store.sessions[i].valid_at(now),
    ensures
        token_validation(store, store.sessions[i].token, now) matches Ok(user) && user.id
            == store.sessions[i].owner,
{
    lemma_token_names_its_session(store.sessions, store.last_session_id, i);
    lemma_first_true(store.user_id_flags(store.sessions[i].owner));
}

/// A registration with a code that no pending registration carries fails
/// with `InvalidCitizenCode` and writes nothing.
pub proof fn registration_with_unknown_code_fails(
    store: StoreView,
    code: Seq<char>,
    key: Seq<char>,
    hashed: Result<Seq<char>, CredentialsCreationError>,
)
    requires
        store.pending_by_code(code) is None,
    ensures
        registration_outcome(store, code, key, hashed) == (
            Err::<(), UserRegistrationError>(UserRegistrationError::InvalidCitizenCode),
            store,
        ),
{
}

/// A registration succeeds exactly where a pending registration carries
/// the code, the secret could be hashed, and neither the login key nor the
/// account id is taken.
pub proof fn registration_succeeds_exactly_when(
    store: StoreView,
    code: Seq<char>,
    key: Seq<char>,
    hashed: Result<Seq<char>, CredentialsCreationError>,
)
    ensures
        registration_outcome(store, code, key, hashed).0 is Ok <==> {
            &&& store.pending_by_code(code) matches Some(pending)
            &&& hashed is Ok
            &&& store.user_by_key(key) is None
            &&& store.user_by_id(account_id(pending.citizen)) is None
        },
{
}

/// A registration that succeeds creates exactly one account: the one of
/// the citizen that the code stands for, under the login key presented. No
/// other row changes, and the pending registration is kept.
pub proof fn registration_creates_exactly_one_account(
    store: StoreView,
    code: Seq<char>,
    key: Seq<char>,
    hashed: Result<Seq<char>, CredentialsCreationError>,
)
    requires
        store.wf(),
        registration_outcome(store, code, key, hashed).0 is Ok,
    ensures
        ({
            let after = registration_outcome(store, code, key, hashed).1;
            let pending = store.pending_by_code(code)->Some_0;
            let account = UserView { id: account_id(pending.citizen), username: key, hash: hashed->Ok_0 };
            &&& store.pending_by_code(code) is Some
            &&& hashed is Ok
            &&& after == StoreView { users: store.users.push(account), ..store }
            &&& after.users.len() == store.users.len() + 1
            &&& after.user_by_key(key) == Some(account)
            &&& pending.citizen >= 0 ==> account.id == pending.citizen
            &&& after.pending_by_code(code) == Some(pending)
            &&& after.wf()
        }),
{
    let pending = store.pending_by_code(code)->Some_0;
    let account = UserView { id: account_id(pending.citizen), username: key, hash: hashed->Ok_0 };
    store.lemma_users_push(account, key, account.id);
    store.lemma_with_user_wf(account);
    let after = registration_outcome(store, code, key, hashed).1;
    assert(after.pending_code_flags(code) == store.pending_code_flags(code));
}

/// An account that was registered with a secret authenticates with that
/// secret, and with no secret that its stored hash does not verify.
pub proof fn registered_account_authenticates(
    store: StoreView,
    code: Seq<char>,
    key: Seq<char>,
    secret: Seq<char>,
    hashed: Result<Seq<char>, CredentialsCreationError>,
    candidate: Seq<char>,
)
    requires
        store.wf(),
        may_hash_to(secret, hashed),
        registration_outcome(store, code, key, hashed).0 is Ok,
    ensures
        ({
            let after = registration_outcome(store, code, key, hashed).1;
            &&& authentication(after, key, secret) matches Ok(user) && user.username == key
            &&& verification(hashed->Ok_0, candidate) == Ok::<bool, CredentialsVerificationError>(false)
                ==> authentication(after, key, candidate) == Err::<UserView, AuthenticationError>(
                AuthenticationError::WrongPassword,
            )
        }),
{
    registration_creates_exactly_one_account(store, code, key, hashed);
}

/// An employee's login is idempotent under reuse: where a login succeeds
/// and the session whose token it returned has not expired by the time of
/// a later login with the same credentials, the later login returns the
/// same account and the same token and writes nothing.
pub proof fn employee_login_twice_returns_same_token(
    store: StoreView,
    key: Seq<char>,
    secret: Seq<char>,
    first_at: Timestamp,
    first_fresh: Seq<char>,
    second_at: Timestamp,
    second_fresh: Seq<char>,
)
    requires
        store.wf(),
        second_at.at_or_after(first_at),
        employee_login_outcome(store, key, secret, first_at, first_fresh).0 is Ok,
        ({
            let (first, after) = employee_login_outcome(store, key, secret, first_at, first_fresh);
            session_by_token(after.employee_sessions, first->Ok_0.1) matches Some(session) && session.valid_at(
                second_at,
            )
        }),
    ensures
        ({
            let (first, after) = employee_login_outcome(store, key, secret, first_at, first_fresh);
            employee_login_outcome(after, key, secret, second_at, second_fresh) == (first, after)
        }),
{
    let (first, after) = employee_login_outcome(store, key, secret, first_at, first_fresh);
    let employee = employee_authentication(store, key, secret)->Ok_0;
    assert(after.employee_key_flags(key) == store.employee_key_flags(key));
    assert(employee_authentication(after, key, secret) == Ok::<EmployeeLoginView, LoginError>(employee));
    lemma_newest_valid_later(store.employee_sessions, employee.id, first_at, second_at);
    match newest_valid_session_of(store.employee_sessions, employee.id, first_at) {
        Some(session) => {
            assert(after == store);
            let flags = valid_owner_flags(store.employee_sessions, employee.id, first_at);
            lemma_last_true(flags);
            let i = last_true(flags)->Some_0;
            lemma_token_names_its_session(store.employee_sessions, store.last_employee_session_id, i);
        },
        None => {
            let token = first->Ok_0.1;
            let expires = expiry_from(first_at)->Some_0;
            let session = SessionView {
                id: (store.last_employee_session_id + 1) as u64,
                owner: employee.id,
                token,
                expires,
            };
            assert(after.employee_sessions == store.employee_sessions.push(session));
            lemma_sessions_push(store.employee_sessions, session, token, employee.id);
            lemma_newest_valid_push(store.employee_sessions, session, employee.id, second_at);
        },
    }
}

/// The token that an employee's login returns validates, at the time of
/// the login, to the account that logged in.
pub proof fn employee_login_token_validates(
    store: StoreView,
    key: Seq<char>,
    secret: Seq<char>,
    now: Timestamp,
    fresh: Seq<char>,
)
    requires
        store.wf(),
        employee_login_outcome(store, key, secret, now, fresh).0 is Ok,
    ensures
        ({
            let (result, after) = employee_login_outcome(store, key, secret, now, fresh);
            employee_token_validation(after, result->Ok_0.1, now) == Ok::<
                (EmployeeLoginView, Seq<char>),
                SessionRetrievalError,
            >(result->Ok_0)
        }),
{
    let (result, after) = employee_login_outcome(store, key, secret, now, fresh);
    let employee = employee_authentication(store, key, secret)->Ok_0;
    lemma_employee_found_by_its_id(store, key);
    assert(after.employee_id_flags(employee.id) == store.employee_id_flags(employee.id));
    match newest_valid_session_of(store.employee_sessions, employee.id, now) {
        Some(session) => {
            let flags = valid_owner_flags(store.employee_sessions, employee.id, now);
            lemma_last_true(flags);
            let i = last_true(flags)->Some_0;
            lemma_token_names_its_session(store.employee_sessions, store.last_employee_session_id, i);
        },
        None => {
            let token = result->Ok_0.1;
            let expires = expiry_from(now)->Some_0;
            let session = SessionView {
                id: (store.last_employee_session_id + 1) as u64,
                owner: employee.id,
                token,
                expires,
            };
            assert(after.employee_sessions == store.employee_sessions.push(session));
            lemma_sessions_push(store.employee_sessions, session, token, employee.id);
        },
    }
}

/// An employee's login reuses a valid session wherever the account has
/// one: it then succeeds, writes nothing, and returns the token of a
/// session of the account that is valid at that time.
pub proof fn employee_login_reuses_a_valid_session(
    store: StoreView,
    key: Seq<char>,
    secret: Seq<char>,
    now: Timestamp,
    fresh: Seq<char>,
    i: int,
)
    requires
        employee_authentication(store, key, secret) is Ok,
        0 <= i < store.employee_sessions.len(),
        store.employee_sessions[i].owner == employee_authentication(store, key, secret)->Ok_0.id,
        store.employee_sessions[i].valid_at(now),
    ensures
        ({
            let (result, after) = employee_login_outcome(store, key, secret, now, fresh);
            let employee = employee_authentication(store, key, secret)->Ok_0;
            &&& after == store
            &&& result matches Ok((account, token))
            &&& account == employee
            &&& exists|j: int|
                0 <= j < store.employee_sessions.len() && (#[trigger] store.employee_sessions[j]).owner
                    == employee.id && store.employee_sessions[j].valid_at(now)
                    && store.employee_sessions[j].token == token
        }),
{
    let employee = employee_authentication(store, key, secret)->Ok_0;
    let flags = valid_owner_flags(store.employee_sessions, employee.id, now);
    assert(flags[i]);
    lemma_last_true(flags);
    let j = last_true(flags)->Some_0;
    assert(flags[j]);
    assert(store.employee_sessions[j].owner == employee.id);
}

/// An employee token that no session carries, and one whose session has
/// expired, are refused; in a well-formed store with the same error.
pub proof fn unknown_or_expired_employee_token_is_rejected(store: StoreView, token: Seq<char>, now: Timestamp)
    requires
        store.wf(),
    ensures
        session_by_token(store.employee_sessions, token) is None ==> employee_token_validation(store, token, now)
            == Err::<(EmployeeLoginView, Seq<char>), SessionRetrievalError>(SessionRetrievalError::InvalidSession),
        session_by_token(store.employee_sessions, token) matches Some(session) && !session.valid_at(now)
            ==> employee_token_validation(store, token, now) == Err::<
            (EmployeeLoginView, Seq<char>),
            SessionRetrievalError,
        >(SessionRetrievalError::InvalidSession),
{
    if session_by_token(store.employee_sessions, token) is Some {
        lemma_first_true(token_flags(store.employee_sessions, token));
    }
}

/// A pending registration that was created is found under its code, with
/// the citizen it was created for; every pending registration that was
/// there before is still found under its own code.
pub proof fn created_pending_registration_is_found(
    store: StoreView,
    citizen: i64,
    code: Seq<char>,
    other: Seq<char>,
)
    requires
        store.with_pending(citizen, code) is Ok,
    ensures
        ({
            let after = store.with_pending(citizen, code)->Ok_0;
            &&& after.pending_by_code(code) matches Some(pending) && pending.citizen == citizen && pending.code
                == code
            &&& after.pending.len() == store.pending.len() + 1
            &&& store.pending_by_code(other) is Some ==> after.pending_by_code(other) == store.pending_by_code(
                other,
            )
        }),
{
    let row = PendingView { id: (store.last_pending_id + 1) as u64, citizen, code };
    store.lemma_pending_push(row, code);
    store.lemma_pending_push(row, other);
}


/// A login succeeds exactly where the credentials authenticate and a
/// session can be had: a session of the account is still valid, or a new
/// one can be minted and stored, which takes an expiry that can
/// be represented, a token that no session carries yet and an id that the
/// table has left. A lookup that finds no session to reuse is never the
/// reason for a failure.
pub proof fn login_succeeds_exactly_when(
    store: StoreView,
    key: Seq<char>,
    secret: Seq<char>,
    now: Timestamp,
    fresh: Seq<char>,
)
    requires
        store.wf(),
    ensures
        login_outcome(store, key, secret, now, fresh).0 is Ok <==> {
            &&& authentication(store, key, secret) matches Ok(user)
            &&& {
                ||| reusable_session(store, user.id, now) is Ok
                ||| {
                    &&& expiry_from(now) is Some
                    &&& session_by_token(store.sessions, fresh) is None
                    &&& store.last_session_id < u64::MAX
                }
            }
        },
        login_outcome(store, key, secret, now, fresh).0 matches Err(e) ==> e is Authentication || e
            is SessionInsertion,
{
    if let Ok(user) = authentication(store, key, secret) {
        lemma_account_found_by_its_id(store, key);
    }
}

/// An employee's login succeeds exactly where the credentials
/// authenticate and a session can be had: a session of the account is
/// still valid, or a new one can be minted and stored.
pub proof fn employee_login_succeeds_exactly_when(
    store: StoreView,
    key: Seq<char>,
    secret: Seq<char>,
    now: Timestamp,
    fresh: Seq<char>,
)
    requires
        store.wf(),
    ensures
        employee_login_outcome(store, key, secret, now, fresh).0 is Ok <==> {
            &&& employee_authentication(store, key, secret) matches Ok(employee)
            &&& {
                ||| newest_valid_session_of(store.employee_sessions, employee.id, now) is Some
                ||| {
                    &&& expiry_from(now) is Some
                    &&& session_by_token(store.employee_sessions, fresh) is None
                    &&& store.last_employee_session_id < u64::MAX
                }
            }
        },
{
    if let Ok(employee) = employee_authentication(store, key, secret) {
        lemma_employee_found_by_its_id(store, key);
    }
}

/// A login tells an unknown login key from a wrong secret in its error,
/// and answers both as a refusal, with the same status and the same words.
pub proof fn unknown_key_and_wrong_secret_are_answered_alike()
    ensures
        LoginError::Authentication(AuthenticationError::UserNotFound).spec_status_code() == STATUS_FORBIDDEN,
        LoginError::Authentication(AuthenticationError::WrongPassword).spec_status_code() == STATUS_FORBIDDEN,
        LoginError::Authentication(AuthenticationError::UserNotFound).message() == LoginError::Authentication(
            AuthenticationError::WrongPassword,
        ).message(),
{
}

/// A stored hash that cannot be checked, and a store that fails while the
/// credentials are checked, are internal errors: they are never answered
/// like a wrong secret.
pub proof fn failed_check_is_not_a_wrong_secret(hashing: CredentialsVerificationError, store: DatabaseError)
    ensures
        LoginError::Authentication(AuthenticationError::Verification(hashing)).spec_status_code()
            == STATUS_INTERNAL_SERVER_ERROR,
        LoginError::Authentication(AuthenticationError::Db(store)).spec_status_code()
            == STATUS_INTERNAL_SERVER_ERROR,
{
}

/// No failure of the hash function, of the entropy source or of the store
/// is answered as a refusal of the caller.
pub proof fn internal_failures_are_not_refusals(
    hashing: CredentialsCreationError,
    store: DatabaseError,
)
    ensures
        UserRegistrationError::UserCreation(hashing).spec_status_code()
            == STATUS_INTERNAL_SERVER_ERROR,
        UserRegistrationError::Db(store).spec_status_code() == STATUS_INTERNAL_SERVER_ERROR,
        LoginError::Db(store).spec_status_code() == STATUS_INTERNAL_SERVER_ERROR,
        SessionRetrievalError::Db(store).spec_status_code() == STATUS_INTERNAL_SERVER_ERROR,
{
}


/// A registered employee account refers to the profile that the same
/// registration inserted, whatever older profiles carry the same names:
/// the profile is the newest row of its table, it has the names given and
/// the id that the account refers to. Where the registration fails after
/// the profile was inserted, the profile stays and nothing else is
/// written.
pub proof fn employee_account_refers_to_its_own_profile(
    store: StoreView,
    firstname: Seq<char>,
    lastname: Seq<char>,
    key: Seq<char>,
    hashed: Result<Seq<char>, CredentialsCreationError>,
)
    requires
        store.wf(),
    ensures
        ({
            let (result, after) = employee_registration(store, firstname, lastname, key, hashed);
            &&& result is Ok ==> {
                &&& hashed is Ok
                &&& after.employee_info == store.employee_info.push(
                    EmployeeInfoView { id: (store.last_employee_info_id + 1) as u64, firstname, lastname },
                )
                &&& after.employee_logins == store.employee_logins.push(
                    EmployeeLoginView {
                        id: (store.last_employee_login_id + 1) as u64,
                        info_id: (store.last_employee_info_id + 1) as u64,
                        username: key,
                        hash: hashed->Ok_0,
                    },
                )
                &&& after.employee_info_by_id(after.employee_logins.last().info_id)
                    == Some(after.employee_info.last())
                &&& after.employee_by_key(key) == Some(after.employee_logins.last())
            }
            &&& result is Err ==> match store.with_employee_info(firstname, lastname) {
                Ok(with_profile) => after == with_profile,
                Err(_) => after == store,
            }
            &&& result != Err::<(), UserRegistrationError>(UserRegistrationError::DataRetrieval)
        }),
{
    if let Ok(with_profile) = store.with_employee_info(firstname, lastname) {
        let profile = EmployeeInfoView { id: (store.last_employee_info_id + 1) as u64, firstname, lastname };
        store.lemma_employee_info_push(profile, profile.id);
        lemma_first_true(store.employee_info_id_flags(profile.id));
        if let (Ok(()), after) = employee_registration(store, firstname, lastname, key, hashed) {
            let account = EmployeeLoginView {
                id: (store.last_employee_login_id + 1) as u64,
                info_id: profile.id,
                username: key,
                hash: hashed->Ok_0,
            };
            with_profile.lemma_employee_logins_push(account, key, account.id);
            assert(after.employee_info_id_flags(profile.id) == with_profile.employee_info_id_flags(profile.id));
        }
    }
}


/// An account that was inserted is found under its login key and under
/// its id; every other login key and id finds what it found before.
pub proof fn inserted_account_is_found(store: StoreView, user: UserView, key: Seq<char>, id: u64)
    requires
        store.with_user(user) is Ok,
    ensures
        ({
            let after = store.with_user(user)->Ok_0;
            &&& after.user_by_key(user.username) == Some(user)
            &&& after.user_by_id(user.id) == Some(user)
            &&& key != user.username ==> after.user_by_key(key) == store.user_by_key(key)
            &&& id != user.id ==> after.user_by_id(id) == store.user_by_id(id)
        }),
{
    store.lemma_users_push(user, user.username, user.id);
    store.lemma_users_push(user, key, id);
}

/// A session that was inserted is found under its token; it is the oldest
/// session of its owner only where the owner had none; every other token
/// and owner finds what it found before.
pub proof fn inserted_session_is_found(
    store: StoreView,
    owner: u64,
    token: Seq<char>,
    expires: Timestamp,
    other_token: Seq<char>,
    other_owner: u64,
)
    requires
        store.with_session(owner, token, expires) is Ok,
    ensures
        ({
            let after = store.with_session(owner, token, expires)->Ok_0;
            let session = SessionView { id: (store.last_session_id + 1) as u64, owner, token, expires };
            &&& session_by_token(after.sessions, token) == Some(session)
            &&& first_session_of(after.sessions, owner) == match first_session_of(store.sessions, owner) {
                Some(oldest) => Some(oldest),
                None => Some(session),
            }
            &&& other_token != token ==> session_by_token(after.sessions, other_token) == session_by_token(
                store.sessions,
                other_token,
            )
            &&& other_owner != owner ==> first_session_of(after.sessions, other_owner) == first_session_of(
                store.sessions,
                other_owner,
            )
        }),
{
    let session = SessionView { id: (store.last_session_id + 1) as u64, owner, token, expires };
    lemma_sessions_push(store.sessions, session, token, owner);
    lemma_sessions_push(store.sessions, session, other_token, other_owner);
}

/// An employee session that was inserted is found under its token; every
/// other token finds what it found before.
pub proof fn inserted_employee_session_is_found(
    store: StoreView,
    owner: u64,
    token: Seq<char>,
    expires: Timestamp,
    other_token: Seq<char>,
)
    requires
        store.with_employee_session(owner, token, expires) is Ok,
    ensures
        ({
            let after = store.with_employee_session(owner, token, expires)->Ok_0;
            let session = SessionView { id: (store.last_employee_session_id + 1) as u64, owner, token, expires };
            &&& session_by_token(after.employee_sessions, token) == Some(session)
            &&& other_token != token ==> session_by_token(after.employee_sessions, other_token)
                == session_by_token(store.employee_sessions, other_token)
        }),
{
    let session = SessionView { id: (store.last_employee_session_id + 1) as u64, owner, token, expires };
    lemma_sessions_push(store.employee_sessions, session, token, owner);
    lemma_sessions_push(store.employee_sessions, session, other_token, owner);
}

/// An employee account that was inserted is found under its login key and
/// under its id; every other login key and id finds what it found before.
pub proof fn inserted_employee_is_found(
    store: StoreView,
    info_id: u64,
    username: Seq<char>,
    hash: Seq<char>,
    key: Seq<char>,
    id: u64,
)
    requires
        store.with_employee_login(info_id, username, hash) is Ok,
    ensures
        ({
            let after = store.with_employee_login(info_id, username, hash)->Ok_0;
            let row = EmployeeLoginView { id: (store.last_employee_login_id + 1) as u64, info_id, username, hash };
            &&& after.employee_by_key(username) == Some(row)
            &&& key != username ==> after.employee_by_key(key) == store.employee_by_key(key)
            &&& id != row.id ==> after.employee_by_id(id) == store.employee_by_id(id)
            &&& store.wf() ==> after.employee_by_id(row.id) == Some(row)
        }),
{
    let row = EmployeeLoginView { id: (store.last_employee_login_id + 1) as u64, info_id, username, hash };
    store.lemma_employee_logins_push(row, username, row.id);
    store.lemma_employee_logins_push(row, key, id);
    if store.wf() {
        lemma_first_true(store.employee_id_flags(row.id));
    }
}

} // verus!
