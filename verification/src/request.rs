//! What callers send to the service and what it answers.

use vstd::prelude::*;
use crate::citizen::CitizenInfo;
use crate::credentials::CredentialsPair;
use crate::employee::{EmployeeLogin, EmployeeLoginView, NewEmployeeInfo};
use crate::user::{User, UserView};

verus! {

/// A citizen's request to exchange a pending-registration code for an
/// account.
#[derive(Debug)]
pub struct UserRegistrationRequest {
    pub credentials: CredentialsPair,
    pub mail: String,
    pub code: String,
    pub redirect_success: Option<String>,
    pub redirect_error: Option<String>,
}

/// A request to log in, from a citizen or an employee.
#[derive(Debug)]
pub struct UserLoginRequest {
    pub credentials: CredentialsPair,
    pub redirect_success: Option<String>,
    pub redirect_error: Option<String>,
}

/// The outcome of a citizen's login: the account and the token of its
/// session.
#[derive(Debug)]
pub struct UserLoginRequestResponse {
    pub user: User,
    pub new_session_token: String,
}

impl View for UserLoginRequestResponse {
    type V = (UserView, Seq<char>);

    open spec fn view(&self) -> (UserView, Seq<char>) {
        (self.user@, self.new_session_token@)
    }
}

/// What a citizen learns after a login or a token validation.
#[derive(Debug, Clone)]
pub struct UserInfoRequestResponse {
    pub citizen_id: u64,
    pub username: String,
    pub user_session_token: String,
    pub info: CitizenInfo,
}

/// A bearer token presented for validation.
#[derive(Debug, Clone)]
pub struct TokenValidateRequest {
    pub code: String,
}

/// A bearer token presented for validation.
#[derive(Debug, Clone)]
pub struct Token {
    pub code: String,
}

/// A request to register an employee. `code` authorizes it: the bootstrap
/// value or the token of a valid employee session.
#[derive(Debug)]
pub struct EmployeeRegisterRequest {
    pub code: String,
    pub info: NewEmployeeInfo,
    pub credentials: CredentialsPair,
}

/// The outcome of an employee's login or token validation: the account and
/// the token of its session.
#[derive(Debug)]
pub struct EmployeeLoginRequestResponse {
    pub employee: EmployeeLogin,
    pub new_employee_token: String,
}

impl View for EmployeeLoginRequestResponse {
    type V = (EmployeeLoginView, Seq<char>);

    open spec fn view(&self) -> (EmployeeLoginView, Seq<char>) {
        (self.employee@, self.new_employee_token@)
    }
}

/// A request for the login page on behalf of another service.
#[derive(Debug)]
pub struct ExternalUserLoginRequest {
    pub redirect_success: Option<String>,
    pub redirect_error: Option<String>,
}

/// What an employee learns after a login or a token validation.
#[derive(Debug, Clone)]
pub struct EmployeeInfoRequestResponse {
    pub id: u64,
    pub username: String,
    pub employee_session_token: String,
    pub info: NewEmployeeInfo,
}

/// What an employee learns after a login or a token validation.
#[derive(Debug, Clone)]
pub struct EmployeeLoginRequestRespone {
    pub id: u64,
    pub username: String,
    pub employee_session_token: String,
    pub info: NewEmployeeInfo,
}

} // verus!
