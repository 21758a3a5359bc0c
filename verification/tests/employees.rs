use smartauth::credentials::CredentialsPair;
use smartauth::employee::{EmployeeSession, NewEmployeeInfo};
use smartauth::employee_actions::{
    authorize_employee_registration, employee_register, get_employee_info, insert_hashed_employee,
    login_employee, register_employee, verify_employee,
};
use smartauth::errors::{
    AuthenticationError, CredentialsCreationError, DatabaseError, LoginError, SessionCreationError,
    SessionRetrievalError, UserRegistrationError,
};
use smartauth::request::EmployeeRegisterRequest;
use smartauth::session::Timestamp;
use smartauth::store::IdentityStore;

const NOW: Timestamp = Timestamp { secs: 1_700_000_000, nanos: 250 };

fn later(seconds: i64) -> Timestamp {
    Timestamp { secs: NOW.secs + seconds, nanos: 250 }
}

fn pair(key: &str, secret: &str) -> CredentialsPair {
    CredentialsPair::new(key.to_string(), secret.to_string())
}

fn profile(firstname: &str, lastname: &str) -> NewEmployeeInfo {
    NewEmployeeInfo { firstname: firstname.to_string(), lastname: lastname.to_string() }
}

fn request(code: &str, firstname: &str, lastname: &str, key: &str, secret: &str) -> EmployeeRegisterRequest {
    EmployeeRegisterRequest {
        code: code.to_string(),
        info: profile(firstname, lastname),
        credentials: pair(key, secret),
    }
}

fn store_with_ada() -> IdentityStore {
    let mut db = IdentityStore::new();
    register_employee(&mut db, &profile("Ada", "Lovelace"), &pair("ada", "analytical engine")).unwrap();
    db
}

#[test]
fn register_employee_creates_profile_and_account() {
    let db = store_with_ada();
    assert_eq!(db.employee_info().len(), 1);
    assert_eq!(db.employee_info()[0].id, 1);
    assert_eq!(db.employee_info()[0].firstname, "Ada");
    assert_eq!(db.employee_info()[0].lastname, "Lovelace");
    assert_eq!(db.employee_logins().len(), 1);
    assert_eq!(db.employee_logins()[0].id, 1);
    assert_eq!(db.employee_logins()[0].info_id, 1);
    assert_eq!(db.employee_logins()[0].username, "ada");
    assert_ne!(db.employee_logins()[0].hash, "analytical engine");
}

#[test]
fn register_employee_with_taken_key_keeps_the_profile() {
    let mut db = store_with_ada();
    let failed = register_employee(&mut db, &profile("Augusta", "King"), &pair("ada", "other"));
    assert!(matches!(failed, Err(UserRegistrationError::Db(DatabaseError::Duplicate))));
    assert_eq!(db.employee_info().len(), 2);
    assert_eq!(db.employee_logins().len(), 1);
}

#[test]
fn namesake_gets_a_profile_of_their_own() {
    let mut db = store_with_ada();
    register_employee(&mut db, &profile("Ada", "Lovelace"), &pair("ada2", "second secret")).unwrap();
    assert_eq!(db.employee_info().len(), 2);
    assert_eq!(db.employee_logins().len(), 2);
    assert_eq!(db.employee_info()[1].id, 2);
    assert_eq!(db.employee_logins()[1].info_id, 2);
    assert_eq!(db.employee_logins()[0].info_id, 1);
    let info = get_employee_info(&db, &db.employee_logins()[1]).unwrap();
    assert_eq!((info.id, info.firstname.as_str(), info.lastname.as_str()), (2, "Ada", "Lovelace"));
}

#[test]
fn employee_login_reuses_a_valid_session_though_a_newer_one_has_expired() {
    let mut db = store_with_ada();
    db.restore_employee_session(EmployeeSession { id: 1, e_id: 1, token: "lasting".to_string(), expires: later(500) })
        .unwrap();
    db.restore_employee_session(EmployeeSession { id: 2, e_id: 1, token: "short".to_string(), expires: later(5) })
        .unwrap();
    let early = login_employee(&mut db, &pair("ada", "analytical engine"), later(1)).unwrap();
    assert_eq!(early.new_employee_token, "short");
    let late = login_employee(&mut db, &pair("ada", "analytical engine"), later(100)).unwrap();
    assert_eq!(late.new_employee_token, "lasting");
    assert_eq!(db.employee_sessions().len(), 2);
}

#[test]
fn insert_hashed_employee_maps_each_failure() {
    let mut db = IdentityStore::new();
    db.create_employee_info("Ada", "Lovelace").unwrap();
    assert!(matches!(
        insert_hashed_employee(&mut db, 1, "ada", Err(CredentialsCreationError::RNG)),
        Err(UserRegistrationError::UserCreation(CredentialsCreationError::RNG))
    ));
    assert!(matches!(
        insert_hashed_employee(&mut db, 2, "ada", Ok("hash".to_string())),
        Err(UserRegistrationError::Db(DatabaseError::Constraint))
    ));
    insert_hashed_employee(&mut db, 1, "ada", Ok("hash".to_string())).unwrap();
    assert!(matches!(
        insert_hashed_employee(&mut db, 1, "ada", Ok("hash".to_string())),
        Err(UserRegistrationError::Db(DatabaseError::Duplicate))
    ));
    assert_eq!(db.employee_logins().len(), 1);
}

#[test]
fn employee_login_mints_then_reuses() {
    let mut db = store_with_ada();
    let first = login_employee(&mut db, &pair("ada", "analytical engine"), NOW).unwrap();
    assert_eq!(first.employee.username, "ada");
    assert_eq!(first.new_employee_token.len(), 64);
    assert_eq!(db.employee_sessions().len(), 1);
    assert_eq!(db.employee_sessions()[0].e_id, 1);
    assert_eq!(db.employee_sessions()[0].expires, later(86_400));
    let second = login_employee(&mut db, &pair("ada", "analytical engine"), later(60)).unwrap();
    assert_eq!(first.new_employee_token, second.new_employee_token);
    assert_eq!(db.employee_sessions().len(), 1);
}

#[test]
fn employee_login_reuses_the_newest_session() {
    let mut db = store_with_ada();
    let first = login_employee(&mut db, &pair("ada", "analytical engine"), NOW).unwrap();
    let second = login_employee(&mut db, &pair("ada", "analytical engine"), later(90_000)).unwrap();
    assert_ne!(first.new_employee_token, second.new_employee_token);
    let third = login_employee(&mut db, &pair("ada", "analytical engine"), later(90_001)).unwrap();
    assert_eq!(second.new_employee_token, third.new_employee_token);
    assert_eq!(db.employee_sessions().len(), 2);
}

#[test]
fn employee_login_answers_wrong_secret_like_unknown_key() {
    let mut db = store_with_ada();
    let wrong = login_employee(&mut db, &pair("ada", "difference engine"), NOW);
    assert!(matches!(wrong, Err(LoginError::Authentication(AuthenticationError::UserNotFound))));
    let unknown = login_employee(&mut db, &pair("babbage", "analytical engine"), NOW);
    assert!(matches!(unknown, Err(LoginError::Authentication(AuthenticationError::UserNotFound))));
    assert_eq!(wrong.unwrap_err().status_code(), 403);
    assert_eq!(db.employee_sessions().len(), 0);
}

#[test]
fn employee_login_overflow_is_a_session_creation_error() {
    let mut db = store_with_ada();
    let failed = login_employee(
        &mut db,
        &pair("ada", "analytical engine"),
        Timestamp { secs: i64::MAX - 1, nanos: 0 },
    );
    assert!(matches!(failed, Err(LoginError::SessionCreation(SessionCreationError::Overflow))));
    assert_eq!(failed.unwrap_err().status_code(), 500);
}

#[test]
fn verify_employee_honours_only_valid_tokens() {
    let mut db = store_with_ada();
    let response = login_employee(&mut db, &pair("ada", "analytical engine"), NOW).unwrap();
    let token = response.new_employee_token;
    let verified = verify_employee(&db, &token, later(86_400)).unwrap();
    assert_eq!(verified.employee.id, 1);
    assert_eq!(verified.new_employee_token, token);
    assert!(matches!(verify_employee(&db, &token, later(86_401)), Err(SessionRetrievalError::InvalidSession)));
    assert!(matches!(
        verify_employee(&db, "not-a-real-token", NOW),
        Err(SessionRetrievalError::InvalidSession)
    ));
}

#[test]
fn citizen_and_employee_namespaces_are_separate() {
    let mut db = store_with_ada();
    db.create_account("ada", "hash", 9).unwrap();
    let response = login_employee(&mut db, &pair("ada", "analytical engine"), NOW).unwrap();
    assert_eq!(db.sessions().len(), 0);
    assert!(smartauth::actions::check_user_session_token(&db, &response.new_employee_token, NOW).is_err());
}

#[test]
fn get_employee_info_follows_the_reference() {
    let db = store_with_ada();
    let account = db.employee_logins()[0].clone();
    let info = get_employee_info(&db, &account).unwrap();
    assert_eq!(info.id, 1);
    assert_eq!(info.firstname, "Ada");
    let mut dangling = account.clone();
    dangling.info_id = 77;
    assert!(matches!(
        get_employee_info(&db, &dangling),
        Err(SessionRetrievalError::Db(DatabaseError::NotFound))
    ));
}

#[test]
fn bootstrap_code_authorizes_registration() {
    let db = IdentityStore::new();
    assert_eq!(authorize_employee_registration(&db, "ROOT", NOW), Ok(()));
    assert_eq!(
        authorize_employee_registration(&db, "root", NOW),
        Err(UserRegistrationError::Auth(SessionRetrievalError::InvalidSession))
    );
    assert_eq!(
        authorize_employee_registration(&db, "", NOW),
        Err(UserRegistrationError::Auth(SessionRetrievalError::InvalidSession))
    );
}

#[test]
fn employee_register_needs_root_or_a_valid_session() {
    let mut db = IdentityStore::new();
    let refused = employee_register(&mut db, &request("guess", "Ada", "Lovelace", "ada", "secret"), NOW);
    assert_eq!(refused, Err(UserRegistrationError::Auth(SessionRetrievalError::InvalidSession)));
    assert_eq!(db.employee_info().len(), 0);
    employee_register(&mut db, &request("ROOT", "Ada", "Lovelace", "ada", "secret"), NOW).unwrap();
    let token = login_employee(&mut db, &pair("ada", "secret"), NOW).unwrap().new_employee_token;
    employee_register(&mut db, &request(&token, "Charles", "Babbage", "charles", "secret"), later(10)).unwrap();
    assert_eq!(db.employee_logins().len(), 2);
    let expired = employee_register(&mut db, &request(&token, "Mary", "Somerville", "mary", "s"), later(86_401));
    assert_eq!(expired, Err(UserRegistrationError::Auth(SessionRetrievalError::InvalidSession)));
    assert_eq!(db.employee_logins().len(), 2);
    assert_eq!(db.employee_info().len(), 2);
}

#[test]
fn employee_login_reports_a_store_error_as_such() {
    let mut db = store_with_ada();
    db.restore_employee_session(EmployeeSession {
        id: u64::MAX,
        e_id: 1,
        token: "old".to_string(),
        expires: Timestamp { secs: 0, nanos: 0 },
    })
    .unwrap();
    let failed = login_employee(&mut db, &pair("ada", "analytical engine"), NOW);
    assert!(matches!(failed, Err(LoginError::Db(DatabaseError::Other))));
    assert_eq!(db.employee_sessions().len(), 1);
}
