//! The checks on an authorization request.

use vstd::prelude::*;
use vstd::string::*;
use vstd::utf8::encode_utf8;
use crate::errors::STATUS_BAD_REQUEST;
use crate::text::same_text;

verus! {

/// Client identifiers of this many bytes or more are refused.
pub const CLIENT_ID_LIMIT: usize = 512;

/// The kinds of error an authorization request is answered with.
#[derive(Debug, Clone, Copy, PartialEq, Eq, Structural)]
pub enum AuthErrorType {
    InvalidRequest,
    InvalidClient,
    InvalidGrant,
    UnauthorizedClient,
    UnsupportedGrantType,
    InvalidScope,
}

impl AuthErrorType {
    /// The name of the kind on the wire.
    pub open spec fn spec_name(self) -> Seq<char> {
        match self {
            AuthErrorType::InvalidRequest => "invalid_request"@,
            AuthErrorType::InvalidClient => "invalid_client"@,
            AuthErrorType::InvalidGrant => "invalid_grant"@,
            AuthErrorType::UnauthorizedClient => "unauthorized_client"@,
            AuthErrorType::UnsupportedGrantType => "unsupported_grant_type"@,
            AuthErrorType::InvalidScope => "invalid_scope"@,
        }
    }

    /// The name of the kind on the wire.
    pub fn to_string(&self) -> (name: String)
        ensures
            name@ == self.spec_name(),
    {
        match self {
            AuthErrorType::InvalidRequest => "invalid_request".to_owned(),
            AuthErrorType::InvalidClient => "invalid_client".to_owned(),
            AuthErrorType::InvalidGrant => "invalid_grant".to_owned(),
            AuthErrorType::UnauthorizedClient => "unauthorized_client".to_owned(),
            AuthErrorType::UnsupportedGrantType => "unsupported_grant_type".to_owned(),
            AuthErrorType::InvalidScope => "invalid_scope".to_owned(),
        }
    }
}

/// Why an authorization request was refused.
#[derive(Debug, Clone)]
pub struct AuthError {
    pub error_type: AuthErrorType,
    pub description: String,
    pub error_uri: Option<String>,
}

impl AuthError {
    /// The status an authorization error is answered with.
    pub fn status_code(&self) -> (code: u16)
        ensures
            code == STATUS_BAD_REQUEST,
    {
        STATUS_BAD_REQUEST
    }
}

/// A request that can be checked before it is served.
pub trait RequestData {
    /// The request passes its checks.
    spec fn valid(&self) -> bool;

    /// Checks the request. Every refusal is an `InvalidRequest` that names
    /// no place to read on.
    fn validate(&self) -> (checked: Result<(), AuthError>)
        ensures
            checked is Ok <==> self.valid(),
            checked matches Err(e) ==> e.error_type == AuthErrorType::InvalidRequest && e.error_uri is None,
    ;
}

/// Who asks for an authorization.
#[derive(Debug, Clone)]
pub struct AuthClientInfo {
    pub id: String,
    pub secret: String,
}

impl RequestData for AuthClientInfo {
    /// The identifier is shorter than `CLIENT_ID_LIMIT` bytes.
    open spec fn valid(&self) -> bool {
        encode_utf8(self.id@).len() < CLIENT_ID_LIMIT
    }

    fn validate(&self) -> (checked: Result<(), AuthError>)
        ensures
            checked matches Err(e) ==> e.description@ == "Client identifier is too long"@,
    {
        if self.id.as_str().as_bytes().len() >= CLIENT_ID_LIMIT {
            return Err(
                AuthError {
                    error_type: AuthErrorType::InvalidRequest,
                    description: "Client identifier is too long".to_owned(),
                    error_uri: None,
                },
            );
        }
        Ok(())
    }
}

/// A request for an authorization code.
#[derive(Debug, Clone)]
pub struct AuthorizationRequest {
    pub response_type: String,
    pub client_info: AuthClientInfo,
    pub redirect_uri: String,
    pub permissions: String,
    pub state: Option<String>,
    pub requires_internal: bool,
    pub owner_secret: String,
}

impl RequestData for AuthorizationRequest {
    /// The client passes its checks and the response asked for is a code.
    open spec fn valid(&self) -> bool {
        self.client_info.valid() && self.response_type@ == "code"@
    }

    fn validate(&self) -> (checked: Result<(), AuthError>)
        ensures
            checked matches Err(e) ==> e.description@ == if !self.client_info.valid() {
                "Client identifier is too long"@
            } else {
                "Invalid response type argument"@
            },
    {
        match self.client_info.validate() {
            Err(e) => {
                return Err(e);
            },
            Ok(()) => {},
        }
        if !same_text(self.response_type.as_str(), "code") {
            return Err(
                AuthError {
                    error_type: AuthErrorType::InvalidRequest,
                    description: "Invalid response type argument".to_owned(),
                    error_uri: None,
                },
            );
        }
        Ok(())
    }
}

/// The answer to an authorization request that was granted.
#[derive(Debug, Clone)]
pub struct AuthResponse {
    pub code: String,
    pub state: String,
}

} // verus!
