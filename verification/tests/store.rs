use smartauth::employee::{EmployeeInfoModel, EmployeeLogin, EmployeeSession};
use smartauth::errors::DatabaseError;
use smartauth::session::UserSession;
use smartauth::user::PendingUser;
use smartauth::session::Timestamp;
use smartauth::store::IdentityStore;

const NOW: Timestamp = Timestamp { secs: 1_700_000_000, nanos: 0 };

#[test]
fn empty_store_finds_nothing() {
    let db = IdentityStore::new();
    assert!(db.find_account_by_key("alice").is_none());
    assert!(db.find_account_by_id(1).is_none());
    assert!(db.find_session_by_owner(1).is_none());
    assert!(db.find_session_by_token("t").is_none());
    assert!(db.find_pending_registration_by_code("c").is_none());
    assert!(db.find_employee_by_key("alice").is_none());
    assert!(db.find_employee_by_id(1).is_none());
    assert!(db.find_employee_info_by_id(1).is_none());
    assert!(db.find_employee_session_by_token("t").is_none());
}

#[test]
fn login_key_is_unique() {
    let mut db = IdentityStore::new();
    assert_eq!(db.create_account("alice", "h1", 1), Ok(()));
    assert_eq!(db.create_account("alice", "h2", 2), Err(DatabaseError::Duplicate));
    assert_eq!(db.create_account("bob", "h2", 1), Err(DatabaseError::Duplicate));
    assert_eq!(db.create_account("Alice", "h3", 3), Ok(()));
    assert_eq!(db.users().len(), 2);
    let found = db.find_account_by_key("alice").unwrap();
    assert_eq!((found.id, found.hash.as_str()), (1, "h1"));
    assert_eq!(db.find_account_by_id(3).unwrap().username, "Alice");
    assert!(db.find_account_by_key("ali").is_none());
}

#[test]
fn session_token_is_unique_and_owner_must_exist() {
    let mut db = IdentityStore::new();
    db.create_account("alice", "h", 10).unwrap();
    db.create_account("bob", "h", 20).unwrap();
    assert_eq!(db.create_session(10, "t1", NOW), Ok(()));
    assert_eq!(db.create_session(20, "t1", NOW), Err(DatabaseError::Duplicate));
    assert_eq!(db.create_session(30, "t2", NOW), Err(DatabaseError::Constraint));
    assert_eq!(db.create_session(10, "t2", Timestamp { secs: 5, nanos: 0 }), Ok(()));
    assert_eq!(db.sessions().len(), 2);
    assert_eq!(db.sessions()[0].id, 1);
    assert_eq!(db.sessions()[1].id, 2);
    assert_eq!(db.find_session_by_owner(10).unwrap().token, "t1");
    assert_eq!(db.find_session_by_token("t2").unwrap().expires, Timestamp { secs: 5, nanos: 0 });
    assert!(db.find_session_by_owner(20).is_none());
    assert!(db.find_session_by_token("t").is_none());
}

#[test]
fn pending_code_is_unique() {
    let mut db = IdentityStore::new();
    let first = db.insert_pending_registration(42, "abc".to_string()).unwrap();
    assert_eq!((first.id, first.citizen, first.code.as_str()), (1, 42, "abc"));
    let again = db.insert_pending_registration(43, "abc".to_string());
    assert!(matches!(again, Err(DatabaseError::Duplicate)));
    let second = db.insert_pending_registration(42, "abd".to_string()).unwrap();
    assert_eq!(second.id, 2);
    assert_eq!(db.pending_users().len(), 2);
    assert_eq!(db.find_pending_registration_by_code("abd").unwrap().citizen, 42);
}

#[test]
fn created_pending_registration_carries_a_fresh_code() {
    let mut db = IdentityStore::new();
    let first = db.create_pending_registration(42).unwrap();
    let second = db.create_pending_registration(42).unwrap();
    assert_eq!(first.code.chars().count(), 10);
    assert_ne!(first.code, second.code);
    assert_eq!(db.pending_users().len(), 2);
    assert_eq!(db.find_pending_registration_by_code(&second.code).unwrap().id, 2);
}

#[test]
fn employee_rows_keep_their_references() {
    let mut db = IdentityStore::new();
    assert_eq!(db.create_employee_login(1, "ada", "h"), Err(DatabaseError::Constraint));
    let first = db.create_employee_info("Ada", "Lovelace").unwrap();
    let second = db.create_employee_info("Ada", "Lovelace").unwrap();
    assert_eq!((first.id, first.firstname.as_str(), first.lastname.as_str()), (1, "Ada", "Lovelace"));
    assert_eq!(second.id, 2);
    assert_eq!(db.find_employee_info_by_id(1).unwrap().firstname, "Ada");
    assert_eq!(db.find_employee_info_by_id(2).unwrap().lastname, "Lovelace");
    assert!(db.find_employee_info_by_id(3).is_none());
    assert_eq!(db.create_employee_login(2, "ada", "h"), Ok(()));
    assert_eq!(db.create_employee_login(1, "ada", "h"), Err(DatabaseError::Duplicate));
    assert_eq!(db.find_employee_by_key("ada").unwrap().info_id, 2);
    assert_eq!(db.create_employee_session(2, "t", NOW), Err(DatabaseError::Constraint));
    assert_eq!(db.create_employee_session(1, "t", NOW), Ok(()));
    assert_eq!(db.create_employee_session(1, "t", NOW), Err(DatabaseError::Duplicate));
    assert_eq!(db.create_employee_session(1, "u", NOW), Ok(()));
    assert_eq!(db.employee_sessions()[1].token, "u");
    assert_eq!(db.find_employee_session_by_token("t").unwrap().id, 1);
    assert_eq!(db.find_employee_by_id(1).unwrap().username, "ada");
}

#[test]
fn a_table_that_has_run_out_of_ids_takes_no_more_rows() {
    let mut db = IdentityStore::new();
    db.create_account("alice", "h", 1).unwrap();
    db.restore_session(UserSession { id: u64::MAX, user_id: 1, token: "last".to_string(), expires: NOW })
        .unwrap();
    assert_eq!(db.create_session(1, "one more", NOW), Err(DatabaseError::Other));
    assert_eq!(db.sessions().len(), 1);

    db.restore_pending_registration(PendingUser { id: u64::MAX, citizen: 1, code: "c".to_string() }).unwrap();
    assert!(matches!(db.insert_pending_registration(2, "d".to_string()), Err(DatabaseError::Other)));

    db.restore_employee_info(EmployeeInfoModel {
        id: u64::MAX,
        firstname: "Ada".to_string(),
        lastname: "Lovelace".to_string(),
    })
    .unwrap();
    assert!(matches!(db.create_employee_info("Charles", "Babbage"), Err(DatabaseError::Other)));

    db.restore_employee_login(EmployeeLogin {
        id: u64::MAX,
        info_id: u64::MAX,
        username: "ada".to_string(),
        hash: "h".to_string(),
    })
    .unwrap();
    assert_eq!(db.create_employee_login(u64::MAX, "charles", "h"), Err(DatabaseError::Other));

    db.restore_employee_session(EmployeeSession {
        id: u64::MAX,
        e_id: u64::MAX,
        token: "t".to_string(),
        expires: NOW,
    })
    .unwrap();
    assert_eq!(db.create_employee_session(u64::MAX, "u", NOW), Err(DatabaseError::Other));
}
