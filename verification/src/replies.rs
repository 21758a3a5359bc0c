//! What the service answers once a flow has ended: a redirect or a
//! document, and the cookie that carries the session token.

use vstd::prelude::*;
use vstd::string::*;
use crate::citizen::CitizenInfo;
use crate::employee::{EmployeeInfoModel, EmployeeLogin, NewEmployeeInfo};
use crate::request::{EmployeeInfoRequestResponse, UserInfoRequestResponse};
use crate::user::User;

verus! {

/// A cookie that carries a session token.
#[derive(Debug, Clone)]
pub struct SessionCookie {
    pub name: String,
    pub value: String,
    pub domain: String,
}

/// The answer to a login that succeeded.
#[derive(Debug)]
pub enum LoginReply<B> {
    /// Status 200 with `body` as the document.
    Document { body: B, cookie: SessionCookie },
    /// Status 302 to `location`.
    Found { location: String, cookie: SessionCookie },
}

/// The name of the cookie that carries a citizen's session token.
pub open spec fn user_cookie_name() -> Seq<char> {
    "user_session_token"@
}

/// The name of the cookie that carries an employee's session token.
pub open spec fn employee_cookie_name() -> Seq<char> {
    "employee_session_token"@
}

/// The domain that session cookies are set for.
pub open spec fn cookie_domain() -> Seq<char> {
    "supersmartcity.de"@
}

/// Where a registration that succeeded leads when the caller names no
/// place.
pub open spec fn login_page() -> Seq<char> {
    "/page/login"@
}

/// The place a login redirects to: the place the caller named, with the
/// token as the query.
pub open spec fn token_location(target: Seq<char>, token: Seq<char>) -> Seq<char> {
    target + "?token="@ + token
}

/// The text of an optional place.
pub open spec fn place(target: Option<String>) -> Option<Seq<char>> {
    match target {
        Some(url) => Some(url@),
        None => None,
    }
}

/// Where a flow that failed redirects to, if the caller named a place.
pub open spec fn failure_location<E>(error: E, redirect_error: Option<Seq<char>>) -> Result<Seq<char>, E> {
    match redirect_error {
        Some(url) => Ok(url),
        None => Err(error),
    }
}

/// Where a registration redirects to, or the error it is answered with.
pub open spec fn registration_location<E>(
    outcome: Result<(), E>,
    redirect_success: Option<Seq<char>>,
    redirect_error: Option<Seq<char>>,
) -> Result<Seq<char>, E> {
    match outcome {
        Err(e) => failure_location(e, redirect_error),
        Ok(()) => match redirect_success {
            Some(url) => Ok(url),
            None => Ok(login_page()),
        },
    }
}

/// Decides the answer to a flow that failed: a redirect to the place the
/// caller named for failures, or the error itself where none was named.
pub fn failure_reply<E>(error: E, redirect_error: &Option<String>) -> (reply: Result<String, E>)
    ensures
        match failure_location(error, place(*redirect_error)) {
            Ok(url) => reply matches Ok(location) && location@ == url,
            Err(e) => reply matches Err(returned) && returned == e,
        },
{
    match redirect_error {
        Some(url) => Ok(url.clone()),
        None => Err(error),
    }
}

/// Decides the answer to a registration: a redirect to the place the
/// caller named for the outcome, to the login page after a success with no
/// place named, or the error itself after a failure with no place named.
pub fn registration_reply<E>(
    outcome: Result<(), E>,
    redirect_success: &Option<String>,
    redirect_error: &Option<String>,
) -> (reply: Result<String, E>)
    ensures
        match registration_location(outcome, place(*redirect_success), place(*redirect_error)) {
            Ok(url) => reply matches Ok(location) && location@ == url,
            Err(e) => reply matches Err(returned) && returned == e,
        },
{
    match outcome {
        Err(e) => failure_reply(e, redirect_error),
        Ok(()) => match redirect_success {
            Some(url) => Ok(url.clone()),
            None => Ok("/page/login".to_owned()),
        },
    }
}

/// Decides the answer to a login that succeeded: the document with the
/// cookie, or a redirect to the place the caller named, which gets the
/// token as its query and the same cookie.
pub fn session_reply<B>(
    body: B,
    token: &str,
    cookie_name: &str,
    redirect_success: &Option<String>,
) -> (reply: LoginReply<B>)
    ensures
        match *redirect_success {
            None => reply matches LoginReply::Document { body: document, cookie } && document == body
                && cookie.name@ == cookie_name@ && cookie.value@ == token@ && cookie.domain@
                == cookie_domain(),
            Some(url) => reply matches LoginReply::Found { location, cookie } && location@ == token_location(
                url@,
                token@,
            ) && cookie.name@ == cookie_name@ && cookie.value@ == token@ && cookie.domain@
                == cookie_domain(),
        },
{
    let cookie = SessionCookie {
        name: cookie_name.to_owned(),
        value: token.to_owned(),
        domain: "supersmartcity.de".to_owned(),
    };
    match redirect_success {
        None => LoginReply::Document { body, cookie },
        Some(url) => {
            let mut location = url.clone();
            location.append("?token=");
            location.append(token);
            LoginReply::Found { location, cookie }
        },
    }
}

/// The document that tells a citizen who they are.
pub fn user_info_response(user: &User, token: &str, info: CitizenInfo) -> (response: UserInfoRequestResponse)
    ensures
        response.citizen_id == user.id,
        response.username@ == user.username@,
        response.user_session_token@ == token@,
        response.info == info,
{
    UserInfoRequestResponse {
        citizen_id: user.id,
        username: user.username.clone(),
        user_session_token: token.to_owned(),
        info,
    }
}

/// The document that tells an employee who they are.
pub fn employee_info_response(employee: &EmployeeLogin, token: &str, info: &EmployeeInfoModel) -> (response:
    EmployeeInfoRequestResponse)
    ensures
        response.id == employee.id,
        response.username@ == employee.username@,
        response.employee_session_token@ == token@,
        response.info.firstname@ == info.firstname@,
        response.info.lastname@ == info.lastname@,
{
    EmployeeInfoRequestResponse {
        id: employee.id,
        username: employee.username.clone(),
        employee_session_token: token.to_owned(),
        info: NewEmployeeInfo { firstname: info.firstname.clone(), lastname: info.lastname.clone() },
    }
}

/// Answers a citizen's login that succeeded.
pub fn user_login_reply(response: UserInfoRequestResponse, redirect_success: &Option<String>) -> (reply:
    LoginReply<UserInfoRequestResponse>)
    ensures
        match *redirect_success {
            None => reply matches LoginReply::Document { body, cookie } && body == response && cookie.name@
                == user_cookie_name() && cookie.value@ == response.user_session_token@ && cookie.domain@
                == cookie_domain(),
            Some(url) => reply matches LoginReply::Found { location, cookie } && location@ == token_location(
                url@,
                response.user_session_token@,
            ) && cookie.name@ == user_cookie_name() && cookie.value@ == response.user_session_token@
                && cookie.domain@ == cookie_domain(),
        },
{
    let token = response.user_session_token.clone();
    session_reply(response, token.as_str(), "user_session_token", redirect_success)
}

/// Answers an employee's login that succeeded.
pub fn employee_login_reply(response: EmployeeInfoRequestResponse, redirect_success: &Option<String>) -> (reply:
    LoginReply<EmployeeInfoRequestResponse>)
    ensures
        match *redirect_success {
            None => reply matches LoginReply::Document { body, cookie } && body == response && cookie.name@
                == employee_cookie_name() && cookie.value@ == response.employee_session_token@
                && cookie.domain@ == cookie_domain(),
            Some(url) => reply matches LoginReply::Found { location, cookie } && location@ == token_location(
                url@,
                response.employee_session_token@,
            ) && cookie.name@ == employee_cookie_name() && cookie.value@
                == response.employee_session_token@ && cookie.domain@ == cookie_domain(),
        },
{
    let token = response.employee_session_token.clone();
    session_reply(response, token.as_str(), "employee_session_token", redirect_success)
}

} // verus!
