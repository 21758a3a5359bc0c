//! The persisted state as a mathematical value: six tables, the lookups on
//! them, the constraints they keep and what an insertion does to them.

use vstd::prelude::*;
use crate::employee::{EmployeeInfoView, EmployeeLoginView};
use crate::errors::{DatabaseError, SessionRetrievalError};
use crate::search::{first_true, last_true};
use crate::session::{SessionView, Timestamp};
use crate::user::{PendingView, UserView};

verus! {

/// The views of the rows of a table, in the table's order.
pub open spec fn rows_view<T: View>(rows: Seq<T>) -> Seq<T::V> {
    Seq::new(rows.len(), |i: int| rows[i]@)
}

/// The view of a row that a lookup found, if it found one.
pub open spec fn viewed<T: View>(row: Option<T>) -> Option<T::V> {
    match row {
        Some(r) => Some(r@),
        None => None,
    }
}

/// The same result with the view of what it holds on success.
pub open spec fn viewed_result<T: View, E>(result: Result<T, E>) -> Result<T::V, E> {
    match result {
        Ok(r) => Ok(r@),
        Err(e) => Err(e),
    }
}

/// The tables of the identity store. Rows stand in the order in which they
/// were inserted. Each `last_*_id` is the highest id that table has assigned.
#[verifier::ext_equal]
pub struct StoreView {
    pub users: Seq<UserView>,
    pub sessions: Seq<SessionView>,
    pub pending: Seq<PendingView>,
    pub employee_info: Seq<EmployeeInfoView>,
    pub employee_logins: Seq<EmployeeLoginView>,
    pub employee_sessions: Seq<SessionView>,
    pub last_session_id: u64,
    pub last_pending_id: u64,
    pub last_employee_info_id: u64,
    pub last_employee_login_id: u64,
    pub last_employee_session_id: u64,
}

/// For each session, whether it carries `token`.
pub open spec fn token_flags(sessions: Seq<SessionView>, token: Seq<char>) -> Seq<bool> {
    Seq::new(sessions.len(), |i: int| sessions[i].token == token)
}

/// For each session, whether it has the id `id`.
pub open spec fn session_id_flags(sessions: Seq<SessionView>, id: u64) -> Seq<bool> {
    Seq::new(sessions.len(), |i: int| sessions[i].id == id)
}

/// For each session, whether `owner` owns it.
pub open spec fn owner_flags(sessions: Seq<SessionView>, owner: u64) -> Seq<bool> {
    Seq::new(sessions.len(), |i: int| sessions[i].owner == owner)
}

/// For each session, whether `owner` owns it and it is valid at `now`.
pub open spec fn valid_owner_flags(sessions: Seq<SessionView>, owner: u64, now: Timestamp) -> Seq<bool> {
    Seq::new(sessions.len(), |i: int| sessions[i].owner == owner && sessions[i].valid_at(now))
}

/// The newest session of `owner` among those that are valid at `now`.
pub open spec fn newest_valid_session_of(sessions: Seq<SessionView>, owner: u64, now: Timestamp) -> Option<
    SessionView,
> {
    match last_true(valid_owner_flags(sessions, owner, now)) {
        Some(i) => Some(sessions[i]),
        None => None,
    }
}

/// The session that `owner` has to reuse at `now`: the newest of its
/// sessions that are still valid; `NotFound` where it has no session at
/// all, `InvalidSession` where every one has expired.
pub open spec fn session_to_reuse(sessions: Seq<SessionView>, owner: u64, now: Timestamp) -> Result<
    SessionView,
    SessionRetrievalError,
> {
    match newest_valid_session_of(sessions, owner, now) {
        Some(session) => Ok(session),
        None => if first_session_of(sessions, owner) is None {
            Err(SessionRetrievalError::Db(DatabaseError::NotFound))
        } else {
            Err(SessionRetrievalError::InvalidSession)
        },
    }
}

/// The session that carries `token`.
pub open spec fn session_by_token(sessions: Seq<SessionView>, token: Seq<char>) -> Option<SessionView> {
    match first_true(token_flags(sessions, token)) {
        Some(i) => Some(sessions[i]),
        None => None,
    }
}

/// The session with the id `id`.
pub open spec fn session_by_id(sessions: Seq<SessionView>, id: u64) -> Option<SessionView> {
    match first_true(session_id_flags(sessions, id)) {
        Some(i) => Some(sessions[i]),
        None => None,
    }
}

/// The greater of two ids.
pub open spec fn later_id(a: u64, b: u64) -> u64 {
    if a >= b {
        a
    } else {
        b
    }
}

/// The oldest session of `owner`.
pub open spec fn first_session_of(sessions: Seq<SessionView>, owner: u64) -> Option<SessionView> {
    match first_true(owner_flags(sessions, owner)) {
        Some(i) => Some(sessions[i]),
        None => None,
    }
}

/// Ids and tokens are unique among `sessions`, and no id exceeds `last_id`.
pub open spec fn sessions_wf(sessions: Seq<SessionView>, last_id: u64) -> bool {
    &&& forall|i: int, j: int|
        #![trigger sessions[i], sessions[j]]
        0 <= i < j < sessions.len() ==> sessions[i].id != sessions[j].id && sessions[i].token
            != sessions[j].token
    &&& forall|i: int| 0 <= i < sessions.len() ==> (#[trigger] sessions[i]).id <= last_id
}

impl StoreView {
    /// The store without any row.
    pub open spec fn empty() -> StoreView {
        StoreView {
            users: Seq::empty(),
            sessions: Seq::empty(),
            pending: Seq::empty(),
            employee_info: Seq::empty(),
            employee_logins: Seq::empty(),
            employee_sessions: Seq::empty(),
            last_session_id: 0,
            last_pending_id: 0,
            last_employee_info_id: 0,
            last_employee_login_id: 0,
            last_employee_session_id: 0,
        }
    }

    /// For each account, whether it has the login key `key`.
    pub open spec fn user_key_flags(self, key: Seq<char>) -> Seq<bool> {
        Seq::new(self.users.len(), |i: int| self.users[i].username == key)
    }

    /// For each account, whether it has the id `id`.
    pub open spec fn user_id_flags(self, id: u64) -> Seq<bool> {
        Seq::new(self.users.len(), |i: int| self.users[i].id == id)
    }

    /// For each pending registration, whether it carries `code`.
    pub open spec fn pending_code_flags(self, code: Seq<char>) -> Seq<bool> {
        Seq::new(self.pending.len(), |i: int| self.pending[i].code == code)
    }

    /// For each employee profile, whether it has the id `id`.
    pub open spec fn employee_info_id_flags(self, id: u64) -> Seq<bool> {
        Seq::new(self.employee_info.len(), |i: int| self.employee_info[i].id == id)
    }

    /// For each employee account, whether it has the login key `key`.
    pub open spec fn employee_key_flags(self, key: Seq<char>) -> Seq<bool> {
        Seq::new(self.employee_logins.len(), |i: int| self.employee_logins[i].username == key)
    }

    /// For each employee account, whether it has the id `id`.
    pub open spec fn employee_id_flags(self, id: u64) -> Seq<bool> {
        Seq::new(self.employee_logins.len(), |i: int| self.employee_logins[i].id == id)
    }

    /// The account with the login key `key`.
    pub open spec fn user_by_key(self, key: Seq<char>) -> Option<UserView> {
        match first_true(self.user_key_flags(key)) {
            Some(i) => Some(self.users[i]),
            None => None,
        }
    }

    /// The account with the id `id`.
    pub open spec fn user_by_id(self, id: u64) -> Option<UserView> {
        match first_true(self.user_id_flags(id)) {
            Some(i) => Some(self.users[i]),
            None => None,
        }
    }

    /// The pending registration that carries `code`.
    pub open spec fn pending_by_code(self, code: Seq<char>) -> Option<PendingView> {
        match first_true(self.pending_code_flags(code)) {
            Some(i) => Some(self.pending[i]),
            None => None,
        }
    }

    /// The employee profile with the id `id`.
    pub open spec fn employee_info_by_id(self, id: u64) -> Option<EmployeeInfoView> {
        match first_true(self.employee_info_id_flags(id)) {
            Some(i) => Some(self.employee_info[i]),
            None => None,
        }
    }

    /// The employee account with the login key `key`.
    pub open spec fn employee_by_key(self, key: Seq<char>) -> Option<EmployeeLoginView> {
        match first_true(self.employee_key_flags(key)) {
            Some(i) => Some(self.employee_logins[i]),
            None => None,
        }
    }

    /// The employee account with the id `id`.
    pub open spec fn employee_by_id(self, id: u64) -> Option<EmployeeLoginView> {
        match first_true(self.employee_id_flags(id)) {
            Some(i) => Some(self.employee_logins[i]),
            None => None,
        }
    }

    /// The constraints the store keeps: ids, login keys, tokens and codes
    /// are unique within their table; a session belongs to an account of
    /// its namespace and an employee account to a profile; no id exceeds
    /// the highest one its table has assigned.
    pub open spec fn wf(self) -> bool {
        &&& forall|i: int, j: int|
            #![trigger self.users[i], self.users[j]]
            0 <= i < j < self.users.len() ==> self.users[i].id != self.users[j].id
                && self.users[i].username != self.users[j].username
        &&& sessions_wf(self.sessions, self.last_session_id)
        &&& forall|i: int|
            0 <= i < self.sessions.len() ==> self.user_by_id((#[trigger] self.sessions[i]).owner) is Some
        &&& forall|i: int, j: int|
            #![trigger self.pending[i], self.pending[j]]
            0 <= i < j < self.pending.len() ==> self.pending[i].id != self.pending[j].id
                && self.pending[i].code != self.pending[j].code
        &&& forall|i: int|
            0 <= i < self.pending.len() ==> (#[trigger] self.pending[i]).id <= self.last_pending_id
        &&& forall|i: int, j: int|
            #![trigger self.employee_info[i], self.employee_info[j]]
            0 <= i < j < self.employee_info.len() ==> self.employee_info[i].id != self.employee_info[j].id
        &&& forall|i: int|
            0 <= i < self.employee_info.len() ==> (#[trigger] self.employee_info[i]).id
                <= self.last_employee_info_id
        &&& forall|i: int, j: int|
            #![trigger self.employee_logins[i], self.employee_logins[j]]
            0 <= i < j < self.employee_logins.len() ==> self.employee_logins[i].id
                != self.employee_logins[j].id && self.employee_logins[i].username
                != self.employee_logins[j].username
        &&& forall|i: int|
            0 <= i < self.employee_logins.len() ==> (#[trigger] self.employee_logins[i]).id
                <= self.last_employee_login_id && self.employee_info_by_id(self.employee_logins[i].info_id) is Some
        &&& sessions_wf(self.employee_sessions, self.last_employee_session_id)
        &&& forall|i: int|
            0 <= i < self.employee_sessions.len() ==> self.employee_by_id(
                (#[trigger] self.employee_sessions[i]).owner,
            ) is Some
    }

    /// The store after the account `user` was inserted: a `Duplicate` where
    /// its id or its login key is taken.
    pub open spec fn with_user(self, user: UserView) -> Result<StoreView, DatabaseError> {
        if self.user_by_id(user.id) is Some || self.user_by_key(user.username) is Some {
            Err(DatabaseError::Duplicate)
        } else {
            Ok(StoreView { users: self.users.push(user), ..self })
        }
    }

    /// The store after a session of the account `owner` was inserted: a
    /// `Duplicate` where the token is taken, a `Constraint` where no such
    /// account exists, `Other` where the table has run out of ids.
    pub open spec fn with_session(self, owner: u64, token: Seq<char>, expires: Timestamp) -> Result<
        StoreView,
        DatabaseError,
    > {
        if session_by_token(self.sessions, token) is Some {
            Err(DatabaseError::Duplicate)
        } else if self.user_by_id(owner) is None {
            Err(DatabaseError::Constraint)
        } else if self.last_session_id == u64::MAX {
            Err(DatabaseError::Other)
        } else {
            let id = (self.last_session_id + 1) as u64;
            Ok(
                StoreView {
                    sessions: self.sessions.push(SessionView { id, owner, token, expires }),
                    last_session_id: id,
                    ..self
                },
            )
        }
    }

    /// The store after a pending registration of `citizen` was inserted: a
    /// `Duplicate` where the code is taken, `Other` where the table has run
    /// out of ids.
    pub open spec fn with_pending(self, citizen: i64, code: Seq<char>) -> Result<StoreView, DatabaseError> {
        if self.pending_by_code(code) is Some {
            Err(DatabaseError::Duplicate)
        } else if self.last_pending_id == u64::MAX {
            Err(DatabaseError::Other)
        } else {
            let id = (self.last_pending_id + 1) as u64;
            Ok(
                StoreView {
                    pending: self.pending.push(PendingView { id, citizen, code }),
                    last_pending_id: id,
                    ..self
                },
            )
        }
    }

    /// The store after an employee profile was inserted: `Other` where the
    /// table has run out of ids.
    pub open spec fn with_employee_info(self, firstname: Seq<char>, lastname: Seq<char>) -> Result<
        StoreView,
        DatabaseError,
    > {
        if self.last_employee_info_id == u64::MAX {
            Err(DatabaseError::Other)
        } else {
            let id = (self.last_employee_info_id + 1) as u64;
            Ok(
                StoreView {
                    employee_info: self.employee_info.push(EmployeeInfoView { id, firstname, lastname }),
                    last_employee_info_id: id,
                    ..self
                },
            )
        }
    }

    /// The store after an employee account was inserted: a `Duplicate`
    /// where the login key is taken, a `Constraint` where the profile it
    /// refers to does not exist, `Other` where the table has run out of ids.
    pub open spec fn with_employee_login(self, info_id: u64, username: Seq<char>, hash: Seq<char>) -> Result<
        StoreView,
        DatabaseError,
    > {
        if self.employee_by_key(username) is Some {
            Err(DatabaseError::Duplicate)
        } else if self.employee_info_by_id(info_id) is None {
            Err(DatabaseError::Constraint)
        } else if self.last_employee_login_id == u64::MAX {
            Err(DatabaseError::Other)
        } else {
            let id = (self.last_employee_login_id + 1) as u64;
            Ok(
                StoreView {
                    employee_logins: self.employee_logins.push(
                        EmployeeLoginView { id, info_id, username, hash },
                    ),
                    last_employee_login_id: id,
                    ..self
                },
            )
        }
    }

    /// The store after a session of the employee account `owner` was
    /// inserted: a `Duplicate` where the token is taken, a `Constraint`
    /// where no such account exists, `Other` where the table has run out of
    /// ids.
    pub open spec fn with_employee_session(self, owner: u64, token: Seq<char>, expires: Timestamp) -> Result<
        StoreView,
        DatabaseError,
    > {
        if session_by_token(self.employee_sessions, token) is Some {
            Err(DatabaseError::Duplicate)
        } else if self.employee_by_id(owner) is None {
            Err(DatabaseError::Constraint)
        } else if self.last_employee_session_id == u64::MAX {
            Err(DatabaseError::Other)
        } else {
            let id = (self.last_employee_session_id + 1) as u64;
            Ok(
                StoreView {
                    employee_sessions: self.employee_sessions.push(SessionView { id, owner, token, expires }),
                    last_employee_session_id: id,
                    ..self
                },
            )
        }
    }
}


impl StoreView {
    /// For each pending registration, whether it has the id `id`.
    pub open spec fn pending_id_flags(self, id: u64) -> Seq<bool> {
        Seq::new(self.pending.len(), |i: int| self.pending[i].id == id)
    }

    /// The pending registration with the id `id`.
    pub open spec fn pending_by_id(self, id: u64) -> Option<PendingView> {
        match first_true(self.pending_id_flags(id)) {
            Some(i) => Some(self.pending[i]),
            None => None,
        }
    }

    /// The store after a session that was persisted before was put back
    /// under its own id: a `Duplicate` where the id or the token is taken,
    /// a `Constraint` where the account it belongs to does not exist.
    pub open spec fn with_restored_session(self, row: SessionView) -> Result<StoreView, DatabaseError> {
        if session_by_id(self.sessions, row.id) is Some || session_by_token(self.sessions, row.token) is Some {
            Err(DatabaseError::Duplicate)
        } else if self.user_by_id(row.owner) is None {
            Err(DatabaseError::Constraint)
        } else {
            Ok(
                StoreView {
                    sessions: self.sessions.push(row),
                    last_session_id: later_id(self.last_session_id, row.id),
                    ..self
                },
            )
        }
    }

    /// The store after a pending registration that was persisted before
    /// was put back under its own id: a `Duplicate` where the id or the
    /// code is taken.
    pub open spec fn with_restored_pending(self, row: PendingView) -> Result<StoreView, DatabaseError> {
        if self.pending_by_id(row.id) is Some || self.pending_by_code(row.code) is Some {
            Err(DatabaseError::Duplicate)
        } else {
            Ok(
                StoreView {
                    pending: self.pending.push(row),
                    last_pending_id: later_id(self.last_pending_id, row.id),
                    ..self
                },
            )
        }
    }

    /// The store after an employee profile that was persisted before was
    /// put back under its own id: a `Duplicate` where the id is taken.
    pub open spec fn with_restored_employee_info(self, row: EmployeeInfoView) -> Result<
        StoreView,
        DatabaseError,
    > {
        if self.employee_info_by_id(row.id) is Some {
            Err(DatabaseError::Duplicate)
        } else {
            Ok(
                StoreView {
                    employee_info: self.employee_info.push(row),
                    last_employee_info_id: later_id(self.last_employee_info_id, row.id),
                    ..self
                },
            )
        }
    }

    /// The store after an employee account that was persisted before was
    /// put back under its own id: a `Duplicate` where the id or the login
    /// key is taken, a `Constraint` where the profile it refers to does not
    /// exist.
    pub open spec fn with_restored_employee_login(self, row: EmployeeLoginView) -> Result<
        StoreView,
        DatabaseError,
    > {
        if self.employee_by_id(row.id) is Some || self.employee_by_key(row.username) is Some {
            Err(DatabaseError::Duplicate)
        } else if self.employee_info_by_id(row.info_id) is None {
            Err(DatabaseError::Constraint)
        } else {
            Ok(
                StoreView {
                    employee_logins: self.employee_logins.push(row),
                    last_employee_login_id: later_id(self.last_employee_login_id, row.id),
                    ..self
                },
            )
        }
    }

    /// The store after an employee session that was persisted before was
    /// put back under its own id: a `Duplicate` where the id or the token
    /// is taken, a `Constraint` where the account it belongs to does not
    /// exist.
    pub open spec fn with_restored_employee_session(self, row: SessionView) -> Result<
        StoreView,
        DatabaseError,
    > {
        if session_by_id(self.employee_sessions, row.id) is Some || session_by_token(
            self.employee_sessions,
            row.token,
        ) is Some {
            Err(DatabaseError::Duplicate)
        } else if self.employee_by_id(row.owner) is None {
            Err(DatabaseError::Constraint)
        } else {
            Ok(
                StoreView {
                    employee_sessions: self.employee_sessions.push(row),
                    last_employee_session_id: later_id(self.last_employee_session_id, row.id),
                    ..self
                },
            )
        }
    }
}

} // verus!
