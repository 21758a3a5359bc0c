use smartauth::citizen::{check_status, profile_url, push_decimal, Citizen, IsCitizen};
use smartauth::errors::CitizenInfoRetrievalError;
use smartauth::microservices::Microservices;
use smartauth::oauth::{AuthClientInfo, AuthErrorType, AuthorizationRequest, RequestData};
use smartauth::server::{
    origin_allowed, AuthServerInfo, BackendServerInfo, ServerCredentials, ServiceAddress,
};
use smartauth::session::Timestamp;
use smartauth::store::IdentityStore;
use smartauth::employee::{EmployeeInfoModel, EmployeeLogin, EmployeeSession};
use smartauth::errors::{DatabaseError, LoginError, SessionRetrievalError, UserRegistrationError};
use smartauth::session::UserSession;
use smartauth::user::PendingUser;

fn account() -> ServerCredentials {
    ServerCredentials { host: "db.local".to_string(), username: "auth".to_string(), password: "pw".to_string() }
}

fn info(db: ServiceAddress, rmq: ServiceAddress) -> BackendServerInfo {
    BackendServerInfo { info: AuthServerInfo::default(), db, rmq, mail: account() }
}

#[test]
fn profile_url_names_the_citizen() {
    assert_eq!(profile_url(42), "http://www.smartcityproject.net:9710/api/citizen/42");
    assert_eq!(profile_url(0), "http://www.smartcityproject.net:9710/api/citizen/0");
    assert_eq!(
        profile_url(u64::MAX),
        "http://www.smartcityproject.net:9710/api/citizen/18446744073709551615"
    );
    assert_eq!(Citizen { citizen_id: 42 }.get_citizen_id(), 42);
}

#[test]
fn only_a_2xx_answer_of_the_directory_is_read() {
    for status in [200u16, 201, 204, 299] {
        assert_eq!(check_status(status), Ok(()));
    }
    for status in [0u16, 100, 199, 300, 301, 404, 500, 503, u16::MAX] {
        assert_eq!(check_status(status), Err(CitizenInfoRetrievalError::Request));
    }
}

#[test]
fn decimal_has_no_leading_zeros() {
    for n in [0u64, 7, 9, 10, 11, 99, 100, 1001, 1_000_000, 9_007_199_254_740_993] {
        let mut text = String::from("#");
        push_decimal(&mut text, n);
        assert_eq!(text, format!("#{}", n));
    }
}

#[test]
fn database_url_is_built_from_the_account() {
    let built = info(ServiceAddress::Credentials(account()), ServiceAddress::Credentials(account()));
    assert_eq!(built.database_url(), "mysql://auth:pw@db.local/SmartAuth");
    assert_eq!(built.queue_url(), "amqp://auth:pw@db.local");
    let ready = info(
        ServiceAddress::Url("mysql://elsewhere/x".to_string()),
        ServiceAddress::Url("amqp://queue".to_string()),
    );
    assert_eq!(ready.database_url(), "mysql://elsewhere/x");
    assert_eq!(ready.queue_url(), "amqp://queue");
}

#[test]
fn server_info_describes_itself() {
    let unknown = AuthServerInfo::default();
    assert_eq!(unknown.api_version, "Unknown Version");
    assert_eq!(unknown.server_version, "Unknown Version");
    assert_eq!(unknown.to_string(), "(API: Unknown Version, Server: Unknown Version)");
    let built = AuthServerInfo::of_build(Some("0.1.0"));
    assert_eq!(built.to_string(), "(API: Unknown Version, Server: 0.1.0)");
}

#[test]
fn origins_are_matched_exactly_or_by_star() {
    let listed = vec!["https://a.example".to_string(), "https://b.example".to_string()];
    assert!(origin_allowed(&listed, Some("https://a.example")));
    assert!(origin_allowed(&listed, Some("https://b.example")));
    assert!(!origin_allowed(&listed, Some("https://a.example/")));
    assert!(!origin_allowed(&listed, Some("https://c.example")));
    assert!(!origin_allowed(&listed, Some("*")));
    assert!(!origin_allowed(&listed, None));
    assert!(!origin_allowed(&vec![], Some("https://a.example")));
    assert!(origin_allowed(&vec!["*".to_string()], Some("https://anything.example")));
    assert!(origin_allowed(&vec!["x".to_string(), "*".to_string()], Some("")));
    assert!(origin_allowed(&vec!["x".to_string(), "*".to_string()], None));
}

#[test]
fn microservices_have_numbers_and_names() {
    assert_eq!(Microservices::Buergerbuero.id(), 1);
    assert_eq!(Microservices::SmartAuth.id(), 6);
    assert_eq!(Microservices::LandingPage.id(), 10);
    assert_eq!(Microservices::Buergerbuero.to_string(), "B\u{fc}rgerb\u{fc}ro");
    assert_eq!(Microservices::SmartAuth.to_string(), "SmartAuth");
    assert_eq!(Microservices::Fitnessstudio.to_string(), "Fitnessstudio");
    let all = [
        Microservices::Buergerbuero,
        Microservices::Stadtbus,
        Microservices::Kita,
        Microservices::Forum,
        Microservices::Tierheim,
        Microservices::SmartAuth,
        Microservices::Fitnessstudio,
        Microservices::Finanzamt,
        Microservices::Integration,
        Microservices::LandingPage,
    ];
    let ids: Vec<u8> = all.iter().map(|service| service.id()).collect();
    assert_eq!(ids, vec![1, 2, 3, 4, 5, 6, 7, 8, 9, 10]);
}

fn client(id: &str) -> AuthClientInfo {
    AuthClientInfo { id: id.to_string(), secret: "s".to_string() }
}

fn authorization(response_type: &str, id: &str) -> AuthorizationRequest {
    AuthorizationRequest {
        response_type: response_type.to_string(),
        client_info: client(id),
        redirect_uri: "https://client.example/cb".to_string(),
        permissions: "profile".to_string(),
        state: None,
        requires_internal: false,
        owner_secret: "o".to_string(),
    }
}

#[test]
fn client_id_of_512_bytes_is_too_long() {
    assert!(client("").validate().is_ok());
    assert!(client(&"a".repeat(511)).validate().is_ok());
    let refused = client(&"a".repeat(512)).validate().unwrap_err();
    assert_eq!(refused.error_type, AuthErrorType::InvalidRequest);
    assert_eq!(refused.description, "Client identifier is too long");
    assert_eq!(refused.error_uri, None);
    assert_eq!(refused.status_code(), 400);
    // 256 two-byte characters are 512 bytes
    assert!(client(&"\u{fc}".repeat(256)).validate().is_err());
    assert!(client(&"\u{fc}".repeat(255)).validate().is_ok());
}

#[test]
fn only_the_code_response_type_is_served() {
    assert!(authorization("code", "client").validate().is_ok());
    let refused = authorization("token", "client").validate().unwrap_err();
    assert_eq!(refused.error_type, AuthErrorType::InvalidRequest);
    assert_eq!(refused.description, "Invalid response type argument");
    let refused = authorization("Code", "client").validate().unwrap_err();
    assert_eq!(refused.description, "Invalid response type argument");
    let refused = authorization("token", &"a".repeat(600)).validate().unwrap_err();
    assert_eq!(refused.description, "Client identifier is too long");
    assert_eq!(AuthErrorType::InvalidRequest.to_string(), "invalid_request");
    assert_eq!(AuthErrorType::UnsupportedGrantType.to_string(), "unsupported_grant_type");
}

#[test]
fn errors_say_what_went_wrong() {
    assert_eq!(DatabaseError::Duplicate.to_string(), "Duplicate entry where duplicate entries are not allowed");
    assert_eq!(DatabaseError::Connection.to_string(), "Connection to the database failed");
    assert_eq!(DatabaseError::Other.kind(), "database");
    assert_eq!(UserRegistrationError::InvalidCitizenCode.to_string(), "Citizen Code could not be found");
    assert_eq!(UserRegistrationError::Db(DatabaseError::Duplicate).to_string(), "Database issue");
    assert_eq!(UserRegistrationError::Connection.kind(), "user_registration");
    assert_eq!(SessionRetrievalError::InvalidSession.to_string(), "Session is invalid");
    assert_eq!(SessionRetrievalError::InvalidSession.kind(), "session_retrieval");
    assert_eq!(LoginError::Connection.to_string(), "Connection issue");
    assert_eq!(LoginError::Connection.kind(), "login");
}

const NOW: Timestamp = Timestamp { secs: 1_700_000_000, nanos: 0 };

#[test]
fn restored_rows_keep_their_ids_and_later_rows_follow() {
    let mut db = IdentityStore::new();
    db.create_account("alice", "h", 10).unwrap();
    let row = UserSession { id: 7, user_id: 10, token: "t7".to_string(), expires: NOW };
    assert_eq!(db.restore_session(row.clone()), Ok(()));
    assert_eq!(db.restore_session(row), Err(DatabaseError::Duplicate));
    let same_token = UserSession { id: 8, user_id: 10, token: "t7".to_string(), expires: NOW };
    assert_eq!(db.restore_session(same_token), Err(DatabaseError::Duplicate));
    let orphan = UserSession { id: 8, user_id: 11, token: "t8".to_string(), expires: NOW };
    assert_eq!(db.restore_session(orphan), Err(DatabaseError::Constraint));
    let earlier = UserSession { id: 3, user_id: 10, token: "t3".to_string(), expires: NOW };
    assert_eq!(db.restore_session(earlier), Ok(()));
    db.create_session(10, "fresh", NOW).unwrap();
    assert_eq!(db.find_session_by_token("fresh").unwrap().id, 8);
    assert_eq!(db.find_session_by_id(3).unwrap().token, "t3");
    assert!(db.find_session_by_id(4).is_none());
    assert_eq!(db.find_session_by_owner(10).unwrap().id, 7);
}

#[test]
fn restored_pending_and_employee_rows_are_checked() {
    let mut db = IdentityStore::new();
    let pending = PendingUser { id: 5, citizen: 42, code: "code-5".to_string() };
    assert_eq!(db.restore_pending_registration(pending.clone()), Ok(()));
    assert_eq!(db.restore_pending_registration(pending), Err(DatabaseError::Duplicate));
    assert_eq!(db.insert_pending_registration(43, "code-6".to_string()).unwrap().id, 6);
    assert_eq!(db.find_pending_registration_by_id(5).unwrap().citizen, 42);

    let login = EmployeeLogin { id: 2, info_id: 9, username: "ada".to_string(), hash: "h".to_string() };
    assert_eq!(db.restore_employee_login(login.clone()), Err(DatabaseError::Constraint));
    let profile = EmployeeInfoModel { id: 9, firstname: "Ada".to_string(), lastname: "Lovelace".to_string() };
    assert_eq!(db.restore_employee_info(profile.clone()), Ok(()));
    assert_eq!(db.restore_employee_info(profile), Err(DatabaseError::Duplicate));
    assert_eq!(db.restore_employee_login(login.clone()), Ok(()));
    assert_eq!(db.restore_employee_login(login), Err(DatabaseError::Duplicate));
    db.create_employee_info("Charles", "Babbage").unwrap();
    assert_eq!(db.employee_info()[1].id, 10);

    let session = EmployeeSession { id: 4, e_id: 2, token: "t".to_string(), expires: NOW };
    assert_eq!(db.restore_employee_session(session.clone()), Ok(()));
    assert_eq!(db.restore_employee_session(session), Err(DatabaseError::Duplicate));
    let orphan = EmployeeSession { id: 5, e_id: 3, token: "u".to_string(), expires: NOW };
    assert_eq!(db.restore_employee_session(orphan), Err(DatabaseError::Constraint));
    db.create_employee_session(2, "v", NOW).unwrap();
    assert_eq!(db.find_employee_session_by_id(5).unwrap().token, "v");
}
