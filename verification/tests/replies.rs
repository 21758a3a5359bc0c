use smartauth::citizen::{CitizenAddress, CitizenInfo};
use smartauth::employee::{EmployeeInfoModel, EmployeeLogin};
use smartauth::errors::{LoginError, UserRegistrationError};
use smartauth::replies::{
    employee_info_response, employee_login_reply, failure_reply, registration_reply, session_reply,
    user_info_response, user_login_reply, LoginReply,
};
use smartauth::user::User;

fn some(url: &str) -> Option<String> {
    Some(url.to_string())
}

fn profile() -> CitizenInfo {
    CitizenInfo {
        firstname: "Craig".to_string(),
        lastname: "Rothwell".to_string(),
        gender: Some("m".to_string()),
        birthdate: None,
        place_of_birth: None,
        birthname: None,
        email: None,
        spouse_id: Some(7),
        child_ids: Some(vec![8, 9]),
        address: Some(CitizenAddress { street: None, housenumber: None, city_code: Some(12345), city: None }),
    }
}

#[test]
fn registration_redirects_to_the_place_named() {
    let ok: Result<(), UserRegistrationError> = Ok(());
    assert_eq!(registration_reply(ok, &some("/welcome"), &some("/oops")), Ok("/welcome".to_string()));
    assert_eq!(registration_reply(ok, &None, &some("/oops")), Ok("/page/login".to_string()));
    let failed: Result<(), UserRegistrationError> = Err(UserRegistrationError::InvalidCitizenCode);
    assert_eq!(registration_reply(failed, &some("/welcome"), &some("/oops")), Ok("/oops".to_string()));
    assert_eq!(
        registration_reply(failed, &some("/welcome"), &None),
        Err(UserRegistrationError::InvalidCitizenCode)
    );
}

#[test]
fn failure_redirects_only_where_a_place_is_named() {
    assert_eq!(failure_reply(LoginError::Connection, &some("/oops")), Ok("/oops".to_string()));
    assert_eq!(failure_reply(LoginError::Connection, &None), Err(LoginError::Connection));
}

#[test]
fn login_without_redirect_answers_the_document_with_a_cookie() {
    let user = User { id: 42, username: "craig".to_string(), hash: "h".to_string() };
    let response = user_info_response(&user, "tok", profile());
    assert_eq!(response.citizen_id, 42);
    assert_eq!(response.username, "craig");
    assert_eq!(response.user_session_token, "tok");
    assert_eq!(response.info.spouse_id, Some(7));
    match user_login_reply(response, &None) {
        LoginReply::Document { body, cookie } => {
            assert_eq!(body.citizen_id, 42);
            assert_eq!(body.info.child_ids, Some(vec![8, 9]));
            assert_eq!(cookie.name, "user_session_token");
            assert_eq!(cookie.value, "tok");
            assert_eq!(cookie.domain, "supersmartcity.de");
        }
        other => panic!("unexpected reply {:?}", other),
    }
}

#[test]
fn login_with_redirect_carries_the_token_in_the_query() {
    let user = User { id: 42, username: "craig".to_string(), hash: "h".to_string() };
    let response = user_info_response(&user, "tok", profile());
    match user_login_reply(response, &some("https://bus.example/cb")) {
        LoginReply::Found { location, cookie } => {
            assert_eq!(location, "https://bus.example/cb?token=tok");
            assert_eq!(cookie.name, "user_session_token");
            assert_eq!(cookie.value, "tok");
            assert_eq!(cookie.domain, "supersmartcity.de");
        }
        other => panic!("unexpected reply {:?}", other),
    }
}

#[test]
fn employee_login_reply_uses_the_employee_cookie() {
    let employee = EmployeeLogin { id: 3, info_id: 5, username: "ada".to_string(), hash: "h".to_string() };
    let info = EmployeeInfoModel { id: 5, firstname: "Ada".to_string(), lastname: "Lovelace".to_string() };
    let response = employee_info_response(&employee, "tok", &info);
    assert_eq!(response.id, 3);
    assert_eq!(response.username, "ada");
    assert_eq!(response.employee_session_token, "tok");
    assert_eq!(response.info.firstname, "Ada");
    assert_eq!(response.info.lastname, "Lovelace");
    match employee_login_reply(response.clone(), &some("/desk")) {
        LoginReply::Found { location, cookie } => {
            assert_eq!(location, "/desk?token=tok");
            assert_eq!(cookie.name, "employee_session_token");
        }
        other => panic!("unexpected reply {:?}", other),
    }
    match employee_login_reply(response, &None) {
        LoginReply::Document { body, cookie } => {
            assert_eq!(body.id, 3);
            assert_eq!(cookie.name, "employee_session_token");
            assert_eq!(cookie.value, "tok");
        }
        other => panic!("unexpected reply {:?}", other),
    }
}

#[test]
fn session_reply_keeps_the_body() {
    match session_reply(17u32, "t", "n", &None) {
        LoginReply::Document { body, cookie } => {
            assert_eq!(body, 17);
            assert_eq!((cookie.name.as_str(), cookie.value.as_str()), ("n", "t"));
        }
        other => panic!("unexpected reply {:?}", other),
    }
}
