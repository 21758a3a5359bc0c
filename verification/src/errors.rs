//! The error taxonomy of the credential and session flows, and the HTTP
//! status each error is answered with.

use vstd::prelude::*;

verus! {

/// Status answered when the caller is refused.
pub const STATUS_FORBIDDEN: u16 = 403;

/// Status answered when the service itself failed.
pub const STATUS_INTERNAL_SERVER_ERROR: u16 = 500;

/// Status answered to a malformed request.
pub const STATUS_BAD_REQUEST: u16 = 400;

/// What a storage driver reports when a statement fails, reduced to the
/// distinctions the taxonomy draws.
#[derive(Debug, Clone, Copy, PartialEq, Eq, Structural)]
pub enum DriverFault {
    /// A unique constraint was violated.
    UniqueViolation,
    /// A foreign-key constraint was violated.
    ForeignKeyViolation,
    /// Any other failure the database itself reported.
    OtherDatabaseFault,
    /// The statement found no row.
    NotFound,
    /// Any other failure outside the database, such as a value that could
    /// not be read.
    Other,
}

/// Failures of the identity store.
#[derive(Debug, Clone, Copy, PartialEq, Eq, Structural)]
pub enum DatabaseError {
    /// The store could not be reached.
    Connection,
    /// A row with the same unique key exists already.
    Duplicate,
    /// The row asked for does not exist.
    NotFound,
    /// A row refers to another row that does not exist.
    Constraint,
    /// Any other failure of the store.
    Other,
}

impl DatabaseError {
    /// The store error a driver fault stands for.
    pub open spec fn classify(fault: DriverFault) -> DatabaseError {
        match fault {
            DriverFault::UniqueViolation => DatabaseError::Duplicate,
            DriverFault::ForeignKeyViolation => DatabaseError::Constraint,
            DriverFault::OtherDatabaseFault => DatabaseError::Other,
            DriverFault::NotFound => DatabaseError::NotFound,
            DriverFault::Other => DatabaseError::Other,
        }
    }

    /// Maps a driver fault: unique violations are duplicates, foreign-key
    /// violations are constraint errors, a missing row is `NotFound`, all
    /// else is `Other`.
    pub fn from_fault(fault: DriverFault) -> (error: DatabaseError)
        ensures
            error == Self::classify(fault),
    {
        match fault {
            DriverFault::UniqueViolation => DatabaseError::Duplicate,
            DriverFault::ForeignKeyViolation => DatabaseError::Constraint,
            DriverFault::NotFound => DatabaseError::NotFound,
            _ => DatabaseError::Other,
        }
    }

    /// Store errors are never the caller's fault.
    pub open spec fn spec_status_code(self) -> u16 {
        STATUS_INTERNAL_SERVER_ERROR
    }

    /// The status the error is answered with.
    pub fn status_code(&self) -> (code: u16)
        ensures
            code == self.spec_status_code(),
    {
        STATUS_INTERNAL_SERVER_ERROR
    }
}

/// Failures of the citizen directory lookup.
#[derive(Debug, Clone, Copy, PartialEq, Eq, Structural)]
pub enum CitizenInfoRetrievalError {
    /// The directory could not be reached or answered with a failure.
    Request,
    /// The directory's answer was not a citizen profile.
    Parse,
}

/// Failures while deriving a stored hash from a secret.
#[derive(Debug, Clone, Copy, PartialEq, Eq, Structural)]
pub enum CredentialsCreationError {
    /// The entropy source failed to produce a salt.
    RNG,
    /// The hash function refused its input.
    Hash,
}

/// Failures while checking a secret against a stored hash.
#[derive(Debug, Clone, Copy, PartialEq, Eq, Structural)]
pub enum CredentialsVerificationError {
    /// The stored hash is malformed or could not be recomputed.
    Verify,
}

/// Failures while minting a session.
#[derive(Debug, Clone, Copy, PartialEq, Eq, Structural)]
pub enum SessionCreationError {
    /// The expiry lies beyond the last representable instant.
    Overflow,
}

/// Failures while persisting a fresh session.
#[derive(Debug, Clone, Copy, PartialEq, Eq, Structural)]
pub enum SessionInsertionError {
    Db(DatabaseError),
    Creation(SessionCreationError),
}

/// Failures while resolving a session.
#[derive(Debug, Clone, Copy, PartialEq, Eq, Structural)]
pub enum SessionRetrievalError {
    Db(DatabaseError),
    /// No session carries the token, or the one that does has expired.
    InvalidSession,
    /// The worker running the lookup was lost.
    Connection,
    Info(CitizenInfoRetrievalError),
}

impl SessionRetrievalError {
    /// The status the error is answered with.
    pub open spec fn spec_status_code(self) -> u16 {
        match self {
            SessionRetrievalError::Db(e) => e.spec_status_code(),
            SessionRetrievalError::InvalidSession => STATUS_FORBIDDEN,
            _ => STATUS_INTERNAL_SERVER_ERROR,
        }
    }

    /// The status the error is answered with.
    pub fn status_code(&self) -> (code: u16)
        ensures
            code == self.spec_status_code(),
    {
        match self {
            SessionRetrievalError::Db(e) => e.status_code(),
            SessionRetrievalError::InvalidSession => STATUS_FORBIDDEN,
            _ => STATUS_INTERNAL_SERVER_ERROR,
        }
    }
}

/// Failures while registering an account.
#[derive(Debug, Clone, Copy, PartialEq, Eq, Structural)]
pub enum UserRegistrationError {
    Db(DatabaseError),
    UserCreation(CredentialsCreationError),
    /// No pending registration carries the code presented.
    InvalidCitizenCode,
    /// The worker running the registration was lost.
    Connection,
    /// A row just written could not be read back.
    DataRetrieval,
    /// The token presented as authorization is not a valid session.
    Auth(SessionRetrievalError),
}

impl UserRegistrationError {
    /// The status the error is answered with.
    pub open spec fn spec_status_code(self) -> u16 {
        match self {
            UserRegistrationError::Db(e) => e.spec_status_code(),
            UserRegistrationError::InvalidCitizenCode => STATUS_FORBIDDEN,
            _ => STATUS_INTERNAL_SERVER_ERROR,
        }
    }

    /// The status the error is answered with.
    pub fn status_code(&self) -> (code: u16)
        ensures
            code == self.spec_status_code(),
    {
        match self {
            UserRegistrationError::Db(e) => e.status_code(),
            UserRegistrationError::InvalidCitizenCode => STATUS_FORBIDDEN,
            _ => STATUS_INTERNAL_SERVER_ERROR,
        }
    }
}

/// Failures while checking credentials.
#[derive(Debug, Clone, Copy, PartialEq, Eq, Structural)]
pub enum AuthenticationError {
    Db(DatabaseError),
    /// No account carries the login key.
    UserNotFound,
    Verification(CredentialsVerificationError),
    /// The account exists and the secret does not match.
    WrongPassword,
}

/// Failures of a login.
#[derive(Debug, Clone, Copy, PartialEq, Eq, Structural)]
pub enum LoginError {
    Db(DatabaseError),
    /// The worker running the login was lost.
    Connection,
    SessionCreation(SessionCreationError),
    Authentication(AuthenticationError),
    SessionInsertion(SessionInsertionError),
    Info(CitizenInfoRetrievalError),
    SessionRetrieval(SessionRetrievalError),
}

impl LoginError {
    /// An unknown login key and a wrong secret are refused alike. A stored
    /// hash that cannot be checked, a store that fails and everything else
    /// are internal errors, never a refusal.
    pub open spec fn spec_status_code(self) -> u16 {
        match self {
            LoginError::Db(e) => e.spec_status_code(),
            LoginError::Authentication(AuthenticationError::UserNotFound) => STATUS_FORBIDDEN,
            LoginError::Authentication(AuthenticationError::WrongPassword) => STATUS_FORBIDDEN,
            LoginError::Authentication(AuthenticationError::Db(e)) => e.spec_status_code(),
            _ => STATUS_INTERNAL_SERVER_ERROR,
        }
    }

    /// The status the error is answered with.
    pub fn status_code(&self) -> (code: u16)
        ensures
            code == self.spec_status_code(),
    {
        match self {
            LoginError::Db(e) => e.status_code(),
            LoginError::Authentication(AuthenticationError::UserNotFound) => STATUS_FORBIDDEN,
            LoginError::Authentication(AuthenticationError::WrongPassword) => STATUS_FORBIDDEN,
            LoginError::Authentication(AuthenticationError::Db(e)) => e.status_code(),
            _ => STATUS_INTERNAL_SERVER_ERROR,
        }
    }
}

/// Failures while preparing the mail that carries a registration code.
#[derive(Debug, Clone, Copy, PartialEq, Eq, Structural)]
pub enum MailSenderError {
    /// The citizen's profile holds no mail address.
    MissingAddress,
}

impl DatabaseError {
    /// What the error says of itself.
    pub open spec fn message(self) -> Seq<char> {
        match self {
            DatabaseError::Connection => "Connection to the database failed"@,
            DatabaseError::Duplicate => "Duplicate entry where duplicate entries are not allowed"@,
            DatabaseError::NotFound => "Entry not found"@,
            DatabaseError::Constraint => "Contraint error"@,
            DatabaseError::Other => "Unknown Database error"@,
        }
    }

    /// What the error says of itself.
    pub fn to_string(&self) -> (message: String)
        ensures
            message@ == self.message(),
    {
        match self {
            DatabaseError::Connection => "Connection to the database failed".to_owned(),
            DatabaseError::Duplicate => "Duplicate entry where duplicate entries are not allowed".to_owned(),
            DatabaseError::NotFound => "Entry not found".to_owned(),
            DatabaseError::Constraint => "Contraint error".to_owned(),
            DatabaseError::Other => "Unknown Database error".to_owned(),
        }
    }

    /// The family that the error is reported under.
    pub open spec fn family() -> Seq<char> {
        "database"@
    }

    /// The family that the error is reported under.
    pub fn kind(&self) -> (kind: String)
        ensures
            kind@ == Self::family(),
    {
        "database".to_owned()
    }
}

impl CitizenInfoRetrievalError {
    /// What the error says of itself.
    pub open spec fn message(self) -> Seq<char> {
        match self {
            CitizenInfoRetrievalError::Request => "Unable to get information from remote server"@,
            CitizenInfoRetrievalError::Parse => "Unable to parse citizen info"@,
        }
    }

    /// What the error says of itself.
    pub fn to_string(&self) -> (message: String)
        ensures
            message@ == self.message(),
    {
        match self {
            CitizenInfoRetrievalError::Request => "Unable to get information from remote server".to_owned(),
            CitizenInfoRetrievalError::Parse => "Unable to parse citizen info".to_owned(),
        }
    }
}

impl CredentialsCreationError {
    /// What the error says of itself.
    pub open spec fn message(self) -> Seq<char> {
        match self {
            CredentialsCreationError::RNG => "Unable to create salt"@,
            CredentialsCreationError::Hash => "Unable to create hash"@,
        }
    }

    /// What the error says of itself.
    pub fn to_string(&self) -> (message: String)
        ensures
            message@ == self.message(),
    {
        match self {
            CredentialsCreationError::RNG => "Unable to create salt".to_owned(),
            CredentialsCreationError::Hash => "Unable to create hash".to_owned(),
        }
    }
}

impl CredentialsVerificationError {
    /// What the error says of itself.
    pub open spec fn message(self) -> Seq<char> {
        match self {
            CredentialsVerificationError::Verify => "Unable to verify hash"@,
        }
    }

    /// What the error says of itself.
    pub fn to_string(&self) -> (message: String)
        ensures
            message@ == self.message(),
    {
        match self {
            CredentialsVerificationError::Verify => "Unable to verify hash".to_owned(),
        }
    }
}

impl SessionCreationError {
    /// What the error says of itself.
    pub open spec fn message(self) -> Seq<char> {
        match self {
            SessionCreationError::Overflow => "Overflow Error"@,
        }
    }

    /// What the error says of itself.
    pub fn to_string(&self) -> (message: String)
        ensures
            message@ == self.message(),
    {
        match self {
            SessionCreationError::Overflow => "Overflow Error".to_owned(),
        }
    }
}

impl SessionInsertionError {
    /// What the error says of itself.
    pub open spec fn message(self) -> Seq<char> {
        match self {
            SessionInsertionError::Db(_) => "Database issue"@,
            SessionInsertionError::Creation(_) => "Unable to create session"@,
        }
    }

    /// What the error says of itself.
    pub fn to_string(&self) -> (message: String)
        ensures
            message@ == self.message(),
    {
        match self {
            SessionInsertionError::Db(_) => "Database issue".to_owned(),
            SessionInsertionError::Creation(_) => "Unable to create session".to_owned(),
        }
    }
}

impl SessionRetrievalError {
    /// What the error says of itself.
    pub open spec fn message(self) -> Seq<char> {
        match self {
            SessionRetrievalError::Db(_) => "Database issue"@,
            SessionRetrievalError::InvalidSession => "Session is invalid"@,
            SessionRetrievalError::Connection => "Connection issue"@,
            SessionRetrievalError::Info(_) => "Unable to retrieve citizen info"@,
        }
    }

    /// What the error says of itself.
    pub fn to_string(&self) -> (message: String)
        ensures
            message@ == self.message(),
    {
        match self {
            SessionRetrievalError::Db(_) => "Database issue".to_owned(),
            SessionRetrievalError::InvalidSession => "Session is invalid".to_owned(),
            SessionRetrievalError::Connection => "Connection issue".to_owned(),
            SessionRetrievalError::Info(_) => "Unable to retrieve citizen info".to_owned(),
        }
    }

    /// The family that the error is reported under.
    pub open spec fn family() -> Seq<char> {
        "session_retrieval"@
    }

    /// The family that the error is reported under.
    pub fn kind(&self) -> (kind: String)
        ensures
            kind@ == Self::family(),
    {
        "session_retrieval".to_owned()
    }
}

impl UserRegistrationError {
    /// What the error says of itself.
    pub open spec fn message(self) -> Seq<char> {
        match self {
            UserRegistrationError::Db(_) => "Database issue"@,
            UserRegistrationError::UserCreation(_) => "Unable to create user"@,
            UserRegistrationError::InvalidCitizenCode => "Citizen Code could not be found"@,
            UserRegistrationError::Connection => "Connection issue"@,
            UserRegistrationError::DataRetrieval => "Unable to retrieve data"@,
            UserRegistrationError::Auth(_) => "Unable to authenticate"@,
        }
    }

    /// What the error says of itself.
    pub fn to_string(&self) -> (message: String)
        ensures
            message@ == self.message(),
    {
        match self {
            UserRegistrationError::Db(_) => "Database issue".to_owned(),
            UserRegistrationError::UserCreation(_) => "Unable to create user".to_owned(),
            UserRegistrationError::InvalidCitizenCode => "Citizen Code could not be found".to_owned(),
            UserRegistrationError::Connection => "Connection issue".to_owned(),
            UserRegistrationError::DataRetrieval => "Unable to retrieve data".to_owned(),
            UserRegistrationError::Auth(_) => "Unable to authenticate".to_owned(),
        }
    }

    /// The family that the error is reported under.
    pub open spec fn family() -> Seq<char> {
        "user_registration"@
    }

    /// The family that the error is reported under.
    pub fn kind(&self) -> (kind: String)
        ensures
            kind@ == Self::family(),
    {
        "user_registration".to_owned()
    }
}

impl AuthenticationError {
    /// What the error says of itself.
    pub open spec fn message(self) -> Seq<char> {
        match self {
            AuthenticationError::Db(_) => "Database issue"@,
            AuthenticationError::UserNotFound => "User was not found"@,
            AuthenticationError::Verification(_) => "Unable to verify the user"@,
            AuthenticationError::WrongPassword => "The provided password is wrong"@,
        }
    }

    /// What the error says of itself.
    pub fn to_string(&self) -> (message: String)
        ensures
            message@ == self.message(),
    {
        match self {
            AuthenticationError::Db(_) => "Database issue".to_owned(),
            AuthenticationError::UserNotFound => "User was not found".to_owned(),
            AuthenticationError::Verification(_) => "Unable to verify the user".to_owned(),
            AuthenticationError::WrongPassword => "The provided password is wrong".to_owned(),
        }
    }
}

impl LoginError {
    /// What the error says of itself.
    pub open spec fn message(self) -> Seq<char> {
        match self {
            LoginError::Db(_) => "Database issue"@,
            LoginError::Connection => "Connection issue"@,
            LoginError::SessionCreation(_) => "Unable to create new session"@,
            LoginError::Authentication(_) => "Unable to authenticate user"@,
            LoginError::SessionInsertion(_) => "Unable to insert new session"@,
            LoginError::Info(_) => "Unable to retrieve citizen info"@,
            LoginError::SessionRetrieval(_) => "Unable to retrieve citizen info"@,
        }
    }

    /// What the error says of itself.
    pub fn to_string(&self) -> (message: String)
        ensures
            message@ == self.message(),
    {
        match self {
            LoginError::Db(_) => "Database issue".to_owned(),
            LoginError::Connection => "Connection issue".to_owned(),
            LoginError::SessionCreation(_) => "Unable to create new session".to_owned(),
            LoginError::Authentication(_) => "Unable to authenticate user".to_owned(),
            LoginError::SessionInsertion(_) => "Unable to insert new session".to_owned(),
            LoginError::Info(_) => "Unable to retrieve citizen info".to_owned(),
            LoginError::SessionRetrieval(_) => "Unable to retrieve citizen info".to_owned(),
        }
    }

    /// The family that the error is reported under.
    pub open spec fn family() -> Seq<char> {
        "login"@
    }

    /// The family that the error is reported under.
    pub fn kind(&self) -> (kind: String)
        ensures
            kind@ == Self::family(),
    {
        "login".to_owned()
    }
}

} // verus!
