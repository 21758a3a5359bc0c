use smartauth::actions::{
    account_id_of, authenticate_user, check_pending_user_token, check_user_session_token, get_user_session,
    insert_hashed_user, insert_new_pending_user, insert_new_user, insert_user_session, login_user,
    persist_user_session, register_user,
};
use smartauth::credentials::CredentialsPair;
use smartauth::errors::{
    AuthenticationError, CredentialsCreationError, DatabaseError, LoginError, SessionCreationError,
    SessionInsertionError, SessionRetrievalError, UserRegistrationError,
};
use smartauth::request::{UserLoginRequest, UserRegistrationRequest};
use smartauth::session::{NewSession, Timestamp, UserSession, LAST_SECOND};
use smartauth::store::IdentityStore;

const NOW: Timestamp = Timestamp { secs: 1_700_000_000, nanos: 0 };

fn later(seconds: i64) -> Timestamp {
    Timestamp { secs: NOW.secs + seconds, nanos: 0 }
}

fn pair(key: &str, secret: &str) -> CredentialsPair {
    CredentialsPair::new(key.to_string(), secret.to_string())
}

fn login_request(key: &str, secret: &str) -> UserLoginRequest {
    UserLoginRequest { credentials: pair(key, secret), redirect_success: None, redirect_error: None }
}

fn registration(code: &str, key: &str, secret: &str) -> UserRegistrationRequest {
    UserRegistrationRequest {
        credentials: pair(key, secret),
        mail: "someone@example.org".to_string(),
        code: code.to_string(),
        redirect_success: None,
        redirect_error: None,
    }
}

fn store_with_craig() -> IdentityStore {
    let mut db = IdentityStore::new();
    insert_new_user(&mut db, &pair("CraigAllanRothwell", "SuperSecret123"), 42).unwrap();
    db
}

#[test]
fn create_user_simple() {
    let mut db = IdentityStore::new();
    insert_new_user(&mut db, &pair("abcdefg", "0123456789"), 1).unwrap();
    assert_eq!(db.users().len(), 1);
    assert_eq!(db.users()[0].id, 1);
    assert_eq!(db.users()[0].username, "abcdefg");
    assert_ne!(db.users()[0].hash, "0123456789");
}

#[test]
fn register_then_login_simple() {
    let mut db = IdentityStore::new();
    let user_info = pair("abcdefg", "0123456789");
    insert_new_user(&mut db, &user_info, 1).unwrap();
    let result_user = authenticate_user(&db, &user_info).unwrap();
    assert_eq!(result_user.username, "abcdefg");
}

#[test]
fn basic_token_creation_works() {
    let mut db = IdentityStore::new();
    let user_info = pair("abcdefg", "0123456789");
    insert_new_user(&mut db, &user_info, 1).unwrap();
    let result_user = authenticate_user(&db, &user_info).unwrap();
    assert_eq!(result_user.username, "abcdefg");
    insert_user_session(&mut db, &result_user, NOW).unwrap();
    let _ = get_user_session(&db, &result_user, NOW).unwrap();
}

#[test]
fn basic_token_auth_works() {
    let mut db = IdentityStore::new();
    let user_info = pair("abcdefg", "0123456789");
    insert_new_user(&mut db, &user_info, 1).unwrap();
    let result_user = authenticate_user(&db, &user_info).unwrap();
    assert_eq!(result_user.username, "abcdefg");
    insert_user_session(&mut db, &result_user, NOW).unwrap();
    let session = get_user_session(&db, &result_user, NOW).unwrap();
    let session_user = check_user_session_token(&db, &session.token, NOW).unwrap();
    assert_eq!(session_user.username, result_user.username);
}

#[test]
fn authenticate_returns_the_account() {
    let db = store_with_craig();
    let account = authenticate_user(&db, &pair("CraigAllanRothwell", "SuperSecret123")).unwrap();
    assert_eq!(account.id, 42);
    assert_eq!(account.username, "CraigAllanRothwell");
}

#[test]
fn authenticate_with_wrong_secret_fails() {
    let db = store_with_craig();
    let failed = authenticate_user(&db, &pair("CraigAllanRothwell", "wrong"));
    assert!(matches!(failed, Err(AuthenticationError::WrongPassword)));
}

#[test]
fn authenticate_unknown_key_fails() {
    let db = store_with_craig();
    let failed = authenticate_user(&db, &pair("craigallanrothwell", "SuperSecret123"));
    assert!(matches!(failed, Err(AuthenticationError::UserNotFound)));
    let failed = authenticate_user(&IdentityStore::new(), &pair("CraigAllanRothwell", "SuperSecret123"));
    assert!(matches!(failed, Err(AuthenticationError::UserNotFound)));
}

#[test]
fn authenticate_with_corrupt_hash_is_not_a_wrong_password() {
    let mut db = IdentityStore::new();
    db.create_account("broken", "this is no hash", 5).unwrap();
    let failed = authenticate_user(&db, &pair("broken", "anything"));
    assert!(matches!(failed, Err(AuthenticationError::Verification(_))));
    assert_eq!(LoginError::Authentication(failed.unwrap_err()).status_code(), 500);
}

#[test]
fn unknown_and_wrong_are_answered_alike() {
    let db = store_with_craig();
    let unknown = LoginError::Authentication(
        authenticate_user(&db, &pair("nobody", "SuperSecret123")).unwrap_err(),
    );
    let wrong = LoginError::Authentication(
        authenticate_user(&db, &pair("CraigAllanRothwell", "wrong")).unwrap_err(),
    );
    assert_eq!(unknown.status_code(), 403);
    assert_eq!(wrong.status_code(), 403);
}

#[test]
fn login_mints_a_session_for_24_hours() {
    let mut db = store_with_craig();
    let response = login_user(&mut db, &login_request("CraigAllanRothwell", "SuperSecret123"), NOW).unwrap();
    assert_eq!(response.user.id, 42);
    assert_eq!(response.new_session_token.len(), 64);
    assert_eq!(db.sessions().len(), 1);
    assert_eq!(db.sessions()[0].id, 1);
    assert_eq!(db.sessions()[0].user_id, 42);
    assert_eq!(db.sessions()[0].token, response.new_session_token);
    assert_eq!(db.sessions()[0].expires, later(86_400));
}

#[test]
fn login_twice_returns_the_same_token() {
    let mut db = store_with_craig();
    let request = login_request("CraigAllanRothwell", "SuperSecret123");
    let first = login_user(&mut db, &request, NOW).unwrap();
    let second = login_user(&mut db, &request, later(1)).unwrap();
    assert_eq!(first.new_session_token, second.new_session_token);
    assert_eq!(db.sessions().len(), 1);
    let at_expiry = login_user(&mut db, &request, later(86_400)).unwrap();
    assert_eq!(first.new_session_token, at_expiry.new_session_token);
    assert_eq!(db.sessions().len(), 1);
}

#[test]
fn login_after_expiry_mints_another_session() {
    let mut db = store_with_craig();
    let request = login_request("CraigAllanRothwell", "SuperSecret123");
    let first = login_user(&mut db, &request, NOW).unwrap();
    let second = login_user(&mut db, &request, later(86_401)).unwrap();
    assert_ne!(first.new_session_token, second.new_session_token);
    assert_eq!(db.sessions().len(), 2);
    assert_eq!(db.sessions()[1].id, 2);
    assert_eq!(db.sessions()[1].expires, later(86_401 + 86_400));
}

#[test]
fn valid_session_is_reused_though_an_older_one_has_expired() {
    let mut db = store_with_craig();
    let request = login_request("CraigAllanRothwell", "SuperSecret123");
    let first = login_user(&mut db, &request, NOW).unwrap();
    let second = login_user(&mut db, &request, later(90_000)).unwrap();
    assert_ne!(first.new_session_token, second.new_session_token);
    let third = login_user(&mut db, &request, later(90_001)).unwrap();
    assert_eq!(second.new_session_token, third.new_session_token);
    assert_eq!(db.sessions().len(), 2);
}

#[test]
fn valid_session_is_reused_though_a_newer_one_has_expired() {
    let mut db = store_with_craig();
    db.restore_session(UserSession { id: 1, user_id: 42, token: "lasting".to_string(), expires: later(500) })
        .unwrap();
    db.restore_session(UserSession { id: 2, user_id: 42, token: "short".to_string(), expires: later(5) })
        .unwrap();
    let request = login_request("CraigAllanRothwell", "SuperSecret123");
    let early = login_user(&mut db, &request, later(1)).unwrap();
    assert_eq!(early.new_session_token, "short");
    let late = login_user(&mut db, &request, later(100)).unwrap();
    assert_eq!(late.new_session_token, "lasting");
    assert_eq!(db.sessions().len(), 2);
    assert_eq!(get_user_session(&db, &late.user, later(500)).unwrap().token, "lasting");
    assert!(matches!(
        get_user_session(&db, &late.user, later(501)),
        Err(SessionRetrievalError::InvalidSession)
    ));
}

#[test]
fn sessions_of_other_accounts_are_not_reused() {
    let mut db = store_with_craig();
    db.create_account("other", "h", 7).unwrap();
    db.restore_session(UserSession { id: 1, user_id: 7, token: "theirs".to_string(), expires: later(500) })
        .unwrap();
    let request = login_request("CraigAllanRothwell", "SuperSecret123");
    let response = login_user(&mut db, &request, NOW).unwrap();
    assert_ne!(response.new_session_token, "theirs");
    assert_eq!(db.sessions().len(), 2);
    assert_eq!(db.sessions()[1].user_id, 42);
}

#[test]
fn failed_login_writes_nothing() {
    let mut db = store_with_craig();
    let failed = login_user(&mut db, &login_request("CraigAllanRothwell", "wrong"), NOW);
    assert!(matches!(failed, Err(LoginError::Authentication(AuthenticationError::WrongPassword))));
    let failed = login_user(&mut db, &login_request("nobody", "SuperSecret123"), NOW);
    assert!(matches!(failed, Err(LoginError::Authentication(AuthenticationError::UserNotFound))));
    assert_eq!(db.sessions().len(), 0);
    assert_eq!(db.users().len(), 1);
}

#[test]
fn login_at_the_end_of_time_overflows() {
    let mut db = store_with_craig();
    let failed = login_user(
        &mut db,
        &login_request("CraigAllanRothwell", "SuperSecret123"),
        Timestamp { secs: i64::MAX, nanos: 0 },
    );
    assert!(matches!(
        failed,
        Err(LoginError::SessionInsertion(SessionInsertionError::Creation(SessionCreationError::Overflow)))
    ));
    let failed = login_user(
        &mut db,
        &login_request("CraigAllanRothwell", "SuperSecret123"),
        Timestamp { secs: LAST_SECOND - 86_399, nanos: 0 },
    );
    assert!(matches!(
        failed,
        Err(LoginError::SessionInsertion(SessionInsertionError::Creation(SessionCreationError::Overflow)))
    ));
    assert_eq!(db.sessions().len(), 0);
    let last = Timestamp { secs: LAST_SECOND - 86_400, nanos: 0 };
    login_user(&mut db, &login_request("CraigAllanRothwell", "SuperSecret123"), last).unwrap();
    assert_eq!(db.sessions()[0].expires, Timestamp { secs: LAST_SECOND, nanos: 0 });
}

#[test]
fn validate_token_rejects_unknown_token() {
    let mut db = store_with_craig();
    login_user(&mut db, &login_request("CraigAllanRothwell", "SuperSecret123"), NOW).unwrap();
    let failed = check_user_session_token(&db, "not-a-real-token", NOW);
    assert!(matches!(failed, Err(SessionRetrievalError::InvalidSession)));
    assert_eq!(failed.unwrap_err().status_code(), 403);
    let failed = check_user_session_token(&IdentityStore::new(), "not-a-real-token", NOW);
    assert!(matches!(failed, Err(SessionRetrievalError::InvalidSession)));
}

#[test]
fn validate_token_rejects_expired_token() {
    let mut db = store_with_craig();
    let response = login_user(&mut db, &login_request("CraigAllanRothwell", "SuperSecret123"), NOW).unwrap();
    let token = response.new_session_token;
    assert_eq!(check_user_session_token(&db, &token, later(86_400)).unwrap().id, 42);
    let failed = check_user_session_token(&db, &token, later(86_401));
    assert!(matches!(failed, Err(SessionRetrievalError::InvalidSession)));
}

#[test]
fn validate_token_matches_the_whole_token_only() {
    let mut db = store_with_craig();
    let response = login_user(&mut db, &login_request("CraigAllanRothwell", "SuperSecret123"), NOW).unwrap();
    let token = response.new_session_token;
    assert!(check_user_session_token(&db, &token[..63], NOW).is_err());
    assert!(check_user_session_token(&db, &format!("{}A", token), NOW).is_err());
    assert!(check_user_session_token(&db, &token.to_lowercase(), NOW).is_err() || token == token.to_lowercase());
    assert!(check_user_session_token(&db, "", NOW).is_err());
}

#[test]
fn persist_session_rejects_taken_token_and_unknown_owner() {
    let mut db = store_with_craig();
    let craig = authenticate_user(&db, &pair("CraigAllanRothwell", "SuperSecret123")).unwrap();
    let minted = NewSession::with_token("token-one".to_string(), NOW);
    let stored = persist_user_session(&mut db, &craig, minted).unwrap();
    assert_eq!(stored.token, "token-one");
    let again = persist_user_session(&mut db, &craig, NewSession::with_token("token-one".to_string(), NOW));
    assert!(matches!(again, Err(SessionInsertionError::Db(DatabaseError::Duplicate))));
    let mut stranger = craig.clone();
    stranger.id = 43;
    let orphan = persist_user_session(&mut db, &stranger, NewSession::with_token("token-two".to_string(), NOW));
    assert!(matches!(orphan, Err(SessionInsertionError::Db(DatabaseError::Constraint))));
    let overflow = persist_user_session(&mut db, &craig, Err(SessionCreationError::Overflow));
    assert!(matches!(overflow, Err(SessionInsertionError::Creation(SessionCreationError::Overflow))));
    assert_eq!(db.sessions().len(), 1);
}

#[test]
fn get_user_session_distinguishes_missing_from_expired() {
    let mut db = store_with_craig();
    let craig = authenticate_user(&db, &pair("CraigAllanRothwell", "SuperSecret123")).unwrap();
    let missing = get_user_session(&db, &craig, NOW);
    assert!(matches!(missing, Err(SessionRetrievalError::Db(DatabaseError::NotFound))));
    insert_user_session(&mut db, &craig, NOW).unwrap();
    assert!(get_user_session(&db, &craig, later(86_400)).is_ok());
    let expired = get_user_session(&db, &craig, later(86_401));
    assert!(matches!(expired, Err(SessionRetrievalError::InvalidSession)));
}

#[test]
fn registration_with_unknown_code_fails_with_invalid_code() {
    let mut db = IdentityStore::new();
    insert_new_pending_user(&mut db, 42).unwrap();
    let failed = register_user(&mut db, &registration("no-such-code", "craig", "SuperSecret123"));
    assert!(matches!(failed, Err(UserRegistrationError::InvalidCitizenCode)));
    assert_eq!(failed.unwrap_err().status_code(), 403);
    assert_eq!(db.users().len(), 0);
    assert_eq!(db.pending_users().len(), 1);
}

#[test]
fn registration_creates_one_account_with_the_citizen_id() {
    let mut db = IdentityStore::new();
    insert_new_pending_user(&mut db, 7).unwrap();
    let code = insert_new_pending_user(&mut db, 42).unwrap();
    register_user(&mut db, &registration(&code, "craig", "SuperSecret123")).unwrap();
    assert_eq!(db.users().len(), 1);
    assert_eq!(db.users()[0].id, 42);
    assert_eq!(db.users()[0].username, "craig");
    assert_eq!(db.pending_users().len(), 2);
    assert!(authenticate_user(&db, &pair("craig", "SuperSecret123")).is_ok());
}

#[test]
fn registration_with_taken_key_is_a_duplicate() {
    let mut db = store_with_craig();
    let code = insert_new_pending_user(&mut db, 43).unwrap();
    let failed = register_user(&mut db, &registration(&code, "CraigAllanRothwell", "other secret"));
    assert!(matches!(failed, Err(UserRegistrationError::Db(DatabaseError::Duplicate))));
    assert_eq!(failed.unwrap_err().status_code(), 500);
    assert_eq!(db.users().len(), 1);
}

#[test]
fn code_can_be_used_again_but_not_for_the_same_citizen() {
    let mut db = IdentityStore::new();
    let code = insert_new_pending_user(&mut db, 42).unwrap();
    register_user(&mut db, &registration(&code, "first", "secret one")).unwrap();
    let failed = register_user(&mut db, &registration(&code, "second", "secret two"));
    assert!(matches!(failed, Err(UserRegistrationError::Db(DatabaseError::Duplicate))));
    assert_eq!(db.users().len(), 1);
}

#[test]
fn pending_code_is_found_by_exact_match() {
    let mut db = IdentityStore::new();
    let code = insert_new_pending_user(&mut db, 42).unwrap();
    assert_eq!(code.chars().count(), 10);
    let pending = check_pending_user_token(&db, &code).unwrap();
    assert_eq!(pending.citizen, 42);
    assert_eq!(pending.code, code);
    assert_eq!(pending.id, 1);
    assert!(matches!(check_pending_user_token(&db, &code[..9]), Err(DatabaseError::NotFound)));
    assert!(matches!(check_pending_user_token(&db, ""), Err(DatabaseError::NotFound)));
}

#[test]
fn insert_hashed_user_maps_each_failure() {
    let mut db = IdentityStore::new();
    assert!(matches!(
        insert_hashed_user(&mut db, "a", Err(CredentialsCreationError::RNG), 1),
        Err(UserRegistrationError::UserCreation(CredentialsCreationError::RNG))
    ));
    assert!(matches!(
        insert_hashed_user(&mut db, "a", Err(CredentialsCreationError::Hash), 1),
        Err(UserRegistrationError::UserCreation(CredentialsCreationError::Hash))
    ));
    assert_eq!(db.users().len(), 0);
    insert_hashed_user(&mut db, "a", Ok("hash".to_string()), 1).unwrap();
    assert_eq!(db.users()[0].hash, "hash");
    assert!(matches!(
        insert_hashed_user(&mut db, "b", Ok("hash".to_string()), 1),
        Err(UserRegistrationError::Db(DatabaseError::Duplicate))
    ));
    assert!(matches!(
        insert_hashed_user(&mut db, "a", Ok("hash".to_string()), 2),
        Err(UserRegistrationError::Db(DatabaseError::Duplicate))
    ));
    assert_eq!(db.users().len(), 1);
}

#[test]
fn account_id_wraps_negative_citizen_ids() {
    assert_eq!(account_id_of(0), 0);
    assert_eq!(account_id_of(42), 42);
    assert_eq!(account_id_of(i64::MAX), i64::MAX as u64);
    assert_eq!(account_id_of(-1), u64::MAX);
    assert_eq!(account_id_of(-2), u64::MAX - 1);
    assert_eq!(account_id_of(i64::MIN), 1u64 << 63);
    assert_eq!(account_id_of(-42), (-42i64) as u64);
}
