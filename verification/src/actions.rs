//! The flows of the service on the identity store: registration, login and
//! token validation, for citizens and for employees.

use vstd::prelude::*;
use crate::credentials::{may_hash_to, verification, CredentialsHolder, IdentityHolder};
use crate::errors::{
    AuthenticationError, CredentialsCreationError, DatabaseError, LoginError,
    SessionCreationError, SessionInsertionError, SessionRetrievalError, UserRegistrationError,
};
use crate::model::{
    newest_valid_session_of, rows_view, session_by_token, session_to_reuse, StoreView,
    valid_owner_flags, viewed, viewed_result,
};
use crate::search::{is_last_true, lemma_last_true_is, lemma_none_true};
use crate::request::{UserLoginRequest, UserLoginRequestResponse, UserRegistrationRequest};
use crate::session::{NewSession, Session, SessionView, Timestamp, UserSession};
use crate::store::IdentityStore;
use crate::token::{create_token, is_pending_code, is_token, lemma_token_exists};
use crate::user::{PendingUser, PendingView, User, UserView};

verus! {

/// The flows of the service, as one name to hang them on.
pub struct Actions;

/// The account id that a citizen id of the registry becomes: itself where
/// it is not negative, else its two's complement.
pub open spec fn account_id(citizen: i64) -> u64 {
    if citizen >= 0 {
        citizen as u64
    } else {
        (citizen + 0x1_0000_0000_0000_0000) as u64
    }
}

/// The account id of the citizen `citizen`.
pub fn account_id_of(citizen: i64) -> (id: u64)
    ensures
        id == account_id(citizen),
{
    if citizen >= 0 {
        citizen as u64
    } else {
        u64::MAX - ((-(citizen + 1)) as u64)
    }
}

/// Who `key` and `secret` authenticate: the account with that login key,
/// where the secret verifies against its stored hash.
pub open spec fn authentication(store: StoreView, key: Seq<char>, secret: Seq<char>) -> Result<
    UserView,
    AuthenticationError,
> {
    match store.user_by_key(key) {
        None => Err(AuthenticationError::UserNotFound),
        Some(user) => match verification(user.hash, secret) {
            Err(e) => Err(AuthenticationError::Verification(e)),
            Ok(false) => Err(AuthenticationError::WrongPassword),
            Ok(true) => Ok(user),
        },
    }
}

/// The session that a login of `owner` at `now` reuses: the newest of the
/// account's sessions that are still valid. There is one wherever the
/// account has a valid session at all.
pub open spec fn reusable_session(store: StoreView, owner: u64, now: Timestamp) -> Result<
    SessionView,
    SessionRetrievalError,
> {
    session_to_reuse(store.sessions, owner, now)
}

/// What persisting a minted session of `owner` does: the session inserted,
/// or the reason why none was, with the store as it was.
pub open spec fn session_insertion(
    store: StoreView,
    owner: u64,
    minted: Result<(Seq<char>, Timestamp), SessionCreationError>,
) -> (Result<(Seq<char>, Timestamp), SessionInsertionError>, StoreView) {
    match minted {
        Err(e) => (Err(SessionInsertionError::Creation(e)), store),
        Ok((token, expires)) => match store.with_session(owner, token, expires) {
            Err(e) => (Err(SessionInsertionError::Db(e)), store),
            Ok(next) => (Ok((token, expires)), next),
        },
    }
}

/// What a login with `key` and `secret` at `now` does, where `fresh` is the
/// token that is drawn if a session has to be minted: the account and the
/// token of its session, reused or new, and the store afterwards.
pub open spec fn login_outcome(
    store: StoreView,
    key: Seq<char>,
    secret: Seq<char>,
    now: Timestamp,
    fresh: Seq<char>,
) -> (Result<(UserView, Seq<char>), LoginError>, StoreView) {
    match authentication(store, key, secret) {
        Err(e) => (Err(LoginError::Authentication(e)), store),
        Ok(user) => match reusable_session(store, user.id, now) {
            Ok(session) => (Ok((user, session.token)), store),
            Err(_) => match session_insertion(store, user.id, NewSession::minted(fresh, now)) {
                (Err(e), unchanged) => (Err(LoginError::SessionInsertion(e)), unchanged),
                (Ok((token, _)), next) => (Ok((user, token)), next),
            },
        },
    }
}

/// Whose token `token` is at `now`: the account that owns the session
/// carrying it. A token that no session carries and a token whose session
/// has expired are refused alike.
pub open spec fn token_validation(store: StoreView, token: Seq<char>, now: Timestamp) -> Result<
    UserView,
    SessionRetrievalError,
> {
    match session_by_token(store.sessions, token) {
        None => Err(SessionRetrievalError::InvalidSession),
        Some(session) => if !session.valid_at(now) {
            Err(SessionRetrievalError::InvalidSession)
        } else {
            match store.user_by_id(session.owner) {
                None => Err(SessionRetrievalError::Db(DatabaseError::NotFound)),
                Some(user) => Ok(user),
            }
        },
    }
}

/// What inserting an account does, where `hashed` is the outcome of hashing
/// its secret.
pub open spec fn user_insertion(
    store: StoreView,
    key: Seq<char>,
    hashed: Result<Seq<char>, CredentialsCreationError>,
    uid: u64,
) -> (Result<(), UserRegistrationError>, StoreView) {
    match hashed {
        Err(e) => (Err(UserRegistrationError::UserCreation(e)), store),
        Ok(hash) => match store.with_user(UserView { id: uid, username: key, hash }) {
            Err(e) => (Err(UserRegistrationError::Db(e)), store),
            Ok(next) => (Ok(()), next),
        },
    }
}

/// What a registration with `code` does, where `hashed` is the outcome of
/// hashing the secret: the account of the citizen that the code stands for
/// is inserted under the login key, or nothing changes.
pub open spec fn registration_outcome(
    store: StoreView,
    code: Seq<char>,
    key: Seq<char>,
    hashed: Result<Seq<char>, CredentialsCreationError>,
) -> (Result<(), UserRegistrationError>, StoreView) {
    match store.pending_by_code(code) {
        None => (Err(UserRegistrationError::InvalidCitizenCode), store),
        Some(pending) => user_insertion(store, key, hashed, account_id(pending.citizen)),
    }
}

/// Inserts the account `uid` with the login key `key`, where `hashed` is
/// the outcome of hashing its secret.
pub fn insert_hashed_user(
    db: &mut IdentityStore,
    key: &str,
    hashed: Result<String, CredentialsCreationError>,
    uid: u64,
) -> (inserted: Result<(), UserRegistrationError>)
    ensures
        final(db)@.wf(),
        (inserted, final(db)@) == user_insertion(old(db)@, key@, viewed_result(hashed), uid),
{
    proof {
        use_type_invariant(&*db);
    }
    match hashed {
        Err(e) => Err(UserRegistrationError::UserCreation(e)),
        Ok(hash) => match db.create_account(key, hash.as_str(), uid) {
            Err(e) => Err(UserRegistrationError::Db(e)),
            Ok(()) => Ok(()),
        },
    }
}

/// Hashes the secret of `credentials` under a fresh salt and inserts the
/// account `uid` with their login key. Whatever the hashing gave, the
/// outcome is the one that `user_insertion` has for it.
pub fn insert_new_user<C: CredentialsHolder>(db: &mut IdentityStore, credentials: &C, uid: u64) -> (inserted:
    Result<(), UserRegistrationError>)
    ensures
        final(db)@.wf(),
        exists|hashed: Result<Seq<char>, CredentialsCreationError>|
            may_hash_to(credentials.secret(), hashed) && (inserted, final(db)@) == #[trigger] user_insertion(
                old(db)@,
                credentials.key(),
                hashed,
                uid,
            ),
{
    proof {
        use_type_invariant(&*db);
    }
    let hashed = credentials.create_hash();
    insert_hashed_user(db, credentials.get_key(), hashed, uid)
}

/// Looks up the account with the login key of `credentials` and checks
/// their secret against its stored hash.
pub fn authenticate_user<C: CredentialsHolder>(db: &IdentityStore, credentials: &C) -> (authenticated: Result<
    User,
    AuthenticationError,
>)
    ensures
        viewed_result(authenticated) == authentication(db@, credentials.key(), credentials.secret()),
{
    match db.find_account_by_key(credentials.get_key()) {
        None => Err(AuthenticationError::UserNotFound),
        Some(user) => match user.verify(credentials) {
            Err(e) => Err(AuthenticationError::Verification(e)),
            Ok(false) => Err(AuthenticationError::WrongPassword),
            Ok(true) => Ok(user),
        },
    }
}

/// Persists a minted session of `user`, where `minted` is the outcome of
/// the minting.
pub fn persist_user_session(
    db: &mut IdentityStore,
    user: &User,
    minted: Result<NewSession, SessionCreationError>,
) -> (inserted: Result<NewSession, SessionInsertionError>)
    ensures
        final(db)@.wf(),
        (viewed_result(inserted), final(db)@) == session_insertion(old(db)@, user.id, viewed_result(minted)),
{
    proof {
        use_type_invariant(&*db);
    }
    match minted {
        Err(e) => Err(SessionInsertionError::Creation(e)),
        Ok(session) => match db.create_session(user.id, session.token.as_str(), session.expires) {
            Err(e) => Err(SessionInsertionError::Db(e)),
            Ok(()) => Ok(session),
        },
    }
}

/// Mints a session at `now` and persists it for `user`. Whatever token was
/// drawn, the outcome is the one that `session_insertion` has for it.
pub fn insert_user_session(db: &mut IdentityStore, user: &User, now: Timestamp) -> (inserted: Result<
    NewSession,
    SessionInsertionError,
>)
    ensures
        final(db)@.wf(),
        exists|fresh: Seq<char>|
            is_token(fresh) && (viewed_result(inserted), final(db)@) == session_insertion(
                old(db)@,
                user.id,
                #[trigger] NewSession::minted(fresh, now),
            ),
{
    proof {
        use_type_invariant(&*db);
    }
    let token = create_token();
    let ghost fresh = token@;
    let minted = NewSession::with_token(token, now);
    let ghost minting = viewed_result(minted);
    let inserted = persist_user_session(db, user, minted);
    proof {
        assert(is_token(fresh));
        assert(minting == NewSession::minted(fresh, now));
    }
    inserted
}

/// The newest session of `owner` among `rows` that is valid at `now`.
pub fn newest_valid_session(rows: &Vec<UserSession>, owner: u64, now: &Timestamp) -> (found: Option<
    UserSession,
>)
    ensures
        viewed(found) == newest_valid_session_of(rows_view(rows@), owner, *now),
{
    let ghost flags = valid_owner_flags(rows_view(rows@), owner, *now);
    let mut i: usize = rows.len();
    while i > 0
        invariant
            i <= rows@.len(),
            flags == valid_owner_flags(rows_view(rows@), owner, *now),
            forall|j: int| i <= j < flags.len() ==> !#[trigger] flags[j],
        decreases i,
    {
        i = i - 1;
        if rows[i].user_id == owner && rows[i].is_valid(now) {
            proof {
                assert(is_last_true(flags, i as int));
                lemma_last_true_is(flags, i as int);
            }
            return Some(rows[i].clone());
        }
    }
    proof {
        lemma_none_true(flags);
    }
    None
}

/// The session of `user` that a login at `now` reuses: the newest of its
/// sessions that are still valid. An account without any session and an
/// account whose sessions have all expired are told apart in the error.
pub fn get_user_session(db: &IdentityStore, user: &User, now: Timestamp) -> (found: Result<
    UserSession,
    SessionRetrievalError,
>)
    ensures
        viewed_result(found) == reusable_session(db@, user.id, now),
{
    match newest_valid_session(db.sessions(), user.id, &now) {
        Some(session) => Ok(session),
        None => match db.find_session_by_owner(user.id) {
            None => Err(SessionRetrievalError::Db(DatabaseError::NotFound)),
            Some(_) => Err(SessionRetrievalError::InvalidSession),
        },
    }
}

/// Validates a bearer token at `now` and resolves the account that owns
/// its session. Two lookups, and the store is not changed.
pub fn check_user_session_token(db: &IdentityStore, token: &str, now: Timestamp) -> (checked: Result<
    User,
    SessionRetrievalError,
>)
    ensures
        viewed_result(checked) == token_validation(db@, token@, now),
{
    match db.find_session_by_token(token) {
        None => Err(SessionRetrievalError::InvalidSession),
        Some(session) => if !session.is_valid(&now) {
            Err(SessionRetrievalError::InvalidSession)
        } else {
            match db.find_account_by_id(session.user_id) {
                None => Err(SessionRetrievalError::Db(DatabaseError::NotFound)),
                Some(user) => Ok(user),
            }
        },
    }
}

/// Creates a pending registration of `citizen_id` under a fresh code and
/// returns the code. A code that is taken already is a `Duplicate`.
pub fn insert_new_pending_user(db: &mut IdentityStore, citizen_id: i64) -> (inserted: Result<
    String,
    DatabaseError,
>)
    ensures
        final(db)@.wf(),
        exists|code: Seq<char>|
            is_pending_code(code) && match #[trigger] old(db)@.with_pending(citizen_id, code) {
                Ok(next) => inserted matches Ok(returned) && returned@ == code && final(db)@ == next,
                Err(e) => inserted matches Err(error) && error == e && final(db)@ == old(db)@,
            },
{
    proof {
        use_type_invariant(&*db);
    }
    match db.create_pending_registration(citizen_id) {
        Ok(row) => Ok(row.code),
        Err(e) => Err(e),
    }
}

/// The pending registration that carries `code`, or `NotFound`.
pub fn check_pending_user_token(db: &IdentityStore, code: &str) -> (found: Result<PendingUser, DatabaseError>)
    ensures
        viewed_result(found) == match db@.pending_by_code(code@) {
            Some(pending) => Ok::<PendingView, DatabaseError>(pending),
            None => Err::<PendingView, DatabaseError>(DatabaseError::NotFound),
        },
{
    match db.find_pending_registration_by_code(code) {
        Some(pending) => Ok(pending),
        None => Err(DatabaseError::NotFound),
    }
}

/// Exchanges the pending-registration code of `request` for an account of
/// the citizen it stands for. The pending registration is kept. Whatever
/// the hashing gave, the outcome is the one that `registration_outcome` has
/// for it.
pub fn register_user(db: &mut IdentityStore, request: &UserRegistrationRequest) -> (registered: Result<
    (),
    UserRegistrationError,
>)
    ensures
        final(db)@.wf(),
        exists|hashed: Result<Seq<char>, CredentialsCreationError>|
            may_hash_to(request.credentials.secret(), hashed) && (registered, final(db)@)
                == #[trigger] registration_outcome(old(db)@, request.code@, request.credentials.key(), hashed),
{
    proof {
        use_type_invariant(&*db);
    }
    match check_pending_user_token(db, request.code.as_str()) {
        Err(_) => {
            proof {
                let hashed = Err::<Seq<char>, CredentialsCreationError>(CredentialsCreationError::RNG);
                assert((Err::<(), UserRegistrationError>(UserRegistrationError::InvalidCitizenCode), db@)
                    == registration_outcome(db@, request.code@, request.credentials.key(), hashed));
            }
            Err(UserRegistrationError::InvalidCitizenCode)
        },
        Ok(pending) => {
            let inserted = insert_new_user(db, &request.credentials, account_id_of(pending.citizen));
            proof {
                let hashed = choose|hashed: Result<Seq<char>, CredentialsCreationError>|
                    may_hash_to(request.credentials.secret(), hashed) && (inserted, db@)
                        == #[trigger] user_insertion(
                        old(db)@,
                        request.credentials.key(),
                        hashed,
                        account_id(pending.citizen),
                    );
                assert((inserted, db@) == registration_outcome(
                    old(db)@,
                    request.code@,
                    request.credentials.key(),
                    hashed,
                ));
            }
            inserted
        },
    }
}

/// Logs a citizen in at `now`: authenticates the credentials, then reuses
/// the account's session where it is still valid and mints one where it is
/// not. Whatever token was drawn, the outcome is the one that
/// `login_outcome` has for it.
pub fn login_user(db: &mut IdentityStore, request: &UserLoginRequest, now: Timestamp) -> (logged_in: Result<
    UserLoginRequestResponse,
    LoginError,
>)
    ensures
        final(db)@.wf(),
        exists|fresh: Seq<char>|
            is_token(fresh) && (viewed_result(logged_in), final(db)@) == #[trigger] login_outcome(
                old(db)@,
                request.credentials.key(),
                request.credentials.secret(),
                now,
                fresh,
            ),
{
    proof {
        use_type_invariant(&*db);
    }
    let ghost key = request.credentials.key();
    let ghost secret = request.credentials.secret();
    match authenticate_user(db, &request.credentials) {
        Err(e) => {
            let logged_in = Err(LoginError::Authentication(e));
            proof {
                lemma_token_exists();
                let fresh = choose|fresh: Seq<char>| is_token(fresh);
                assert((viewed_result::<UserLoginRequestResponse, LoginError>(logged_in), db@) == login_outcome(
                    old(db)@,
                    key,
                    secret,
                    now,
                    fresh,
                ));
            }
            logged_in
        },
        Ok(user) => match get_user_session(db, &user, now) {
            Ok(session) => {
                let logged_in = Ok(UserLoginRequestResponse { user, new_session_token: session.token });
                proof {
                    lemma_token_exists();
                    let fresh = choose|fresh: Seq<char>| is_token(fresh);
                    assert((viewed_result(logged_in), db@) == login_outcome(old(db)@, key, secret, now, fresh));
                }
                logged_in
            },
            Err(_) => {
                let inserted = insert_user_session(db, &user, now);
                let ghost viewed_inserted = viewed_result(inserted);
                let logged_in = match inserted {
                    Ok(session) => Ok(UserLoginRequestResponse { user, new_session_token: session.token }),
                    Err(e) => Err(LoginError::SessionInsertion(e)),
                };
                proof {
                    let fresh = choose|fresh: Seq<char>|
                        is_token(fresh) && (viewed_inserted, db@) == session_insertion(
                            old(db)@,
                            user.id,
                            #[trigger] NewSession::minted(fresh, now),
                        );
                    assert((viewed_result(logged_in), db@) == login_outcome(old(db)@, key, secret, now, fresh));
                }
                logged_in
            },
        },
    }
}

} // verus!
