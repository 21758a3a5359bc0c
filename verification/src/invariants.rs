//! Insertions keep the constraints of the store, and lookups see the rows
//! that insertions add.

use vstd::prelude::*;
use crate::employee::{EmployeeInfoView, EmployeeLoginView};
use crate::model::{
    first_session_of, later_id, newest_valid_session_of, owner_flags,
    session_by_id, session_by_token, session_id_flags, sessions_wf, StoreView, token_flags,
    valid_owner_flags,
};
use crate::search::{
    last_true, lemma_first_true, lemma_first_true_push, lemma_last_true, lemma_last_true_is,
    lemma_last_true_push, lemma_none_true,
};
use crate::session::{SessionView, Timestamp};
use crate::user::{PendingView, UserView};

verus! {

/// Appending a session changes each lookup on the table as appending its
/// flag changes the search.
pub proof fn lemma_sessions_push(sessions: Seq<SessionView>, session: SessionView, token: Seq<char>, owner: u64)
    ensures
        session_by_token(sessions.push(session), token) == match session_by_token(sessions, token) {
            Some(s) => Some(s),
            None => if session.token == token {
                Some(session)
            } else {
                None
            },
        },
        first_session_of(sessions.push(session), owner) == match first_session_of(sessions, owner) {
            Some(s) => Some(s),
            None => if session.owner == owner {
                Some(session)
            } else {
                None
            },
        },
{
    let longer = sessions.push(session);
    assert(token_flags(longer, token) =~= token_flags(sessions, token).push(session.token == token));
    assert(owner_flags(longer, owner) =~= owner_flags(sessions, owner).push(session.owner == owner));
    lemma_first_true_push(token_flags(sessions, token), session.token == token);
    lemma_first_true_push(owner_flags(sessions, owner), session.owner == owner);
    lemma_first_true(token_flags(sessions, token));
    lemma_first_true(owner_flags(sessions, owner));
}

/// Appending a session makes it the one to reuse where it belongs to
/// `owner` and is valid at `now`, and changes nothing for `owner` where it
/// does not.
pub proof fn lemma_newest_valid_push(sessions: Seq<SessionView>, session: SessionView, owner: u64, now: Timestamp)
    ensures
        newest_valid_session_of(sessions.push(session), owner, now) == if session.owner == owner
            && session.valid_at(now) {
            Some(session)
        } else {
            newest_valid_session_of(sessions, owner, now)
        },
{
    let longer = sessions.push(session);
    let flag = session.owner == owner && session.valid_at(now);
    assert(valid_owner_flags(longer, owner, now) =~= valid_owner_flags(sessions, owner, now).push(flag));
    lemma_last_true_push(valid_owner_flags(sessions, owner, now), flag);
    lemma_last_true(valid_owner_flags(sessions, owner, now));
}

/// A session that is the one to reuse at some instant, and is still valid
/// at a later one, is the one to reuse then; an owner without a valid
/// session has none at any later instant.
pub proof fn lemma_newest_valid_later(sessions: Seq<SessionView>, owner: u64, earlier: Timestamp, later: Timestamp)
    requires
        later.at_or_after(earlier),
    ensures
        newest_valid_session_of(sessions, owner, earlier) matches Some(session) ==> (session.valid_at(later)
            ==> newest_valid_session_of(sessions, owner, later) == Some(session)),
        newest_valid_session_of(sessions, owner, earlier) is None ==> newest_valid_session_of(
            sessions,
            owner,
            later,
        ) is None,
{
    let before = valid_owner_flags(sessions, owner, earlier);
    let after = valid_owner_flags(sessions, owner, later);
    lemma_last_true(before);
    assert forall|j: int| 0 <= j < after.len() && !before[j] implies !#[trigger] after[j] by {
        if sessions[j].owner == owner {
            assert(!sessions[j].valid_at(earlier));
        }
    }
    match last_true(before) {
        Some(i) => {
            if sessions[i].valid_at(later) {
                assert(after[i]);
                lemma_last_true_is(after, i);
            }
        },
        None => {
            lemma_none_true(after);
        },
    }
}

/// A session table stays well formed when a session with an unused id and
/// an unused token is appended.
pub proof fn lemma_sessions_wf_push(sessions: Seq<SessionView>, last_id: u64, session: SessionView)
    requires
        sessions_wf(sessions, last_id),
        session.id > last_id || session_by_id(sessions, session.id) is None,
        session_by_token(sessions, session.token) is None,
    ensures
        sessions_wf(sessions.push(session), later_id(last_id, session.id)),
{
    let longer = sessions.push(session);
    lemma_first_true(token_flags(sessions, session.token));
    lemma_first_true(session_id_flags(sessions, session.id));
    assert forall|i: int, j: int| 0 <= i < j < longer.len() implies (#[trigger] longer[i]).id != (
    #[trigger] longer[j]).id && longer[i].token != longer[j].token by {
        if j < sessions.len() {
            assert(longer[i] == sessions[i] && longer[j] == sessions[j]);
        } else {
            assert(longer[i] == sessions[i]);
            assert(!token_flags(sessions, session.token)[i]);
            if session.id <= last_id {
                assert(!session_id_flags(sessions, session.id)[i]);
            }
        }
    }
    assert forall|i: int| 0 <= i < longer.len() implies (#[trigger] longer[i]).id <= later_id(
        last_id,
        session.id,
    ) by {
        if i < sessions.len() {
            assert(longer[i] == sessions[i]);
        }
    }
}

impl StoreView {
    /// Appending an account changes each lookup on the table as appending
    /// its flag changes the search.
    pub proof fn lemma_users_push(self, user: UserView, key: Seq<char>, id: u64)
        ensures
            (StoreView { users: self.users.push(user), ..self }).user_by_key(key) == match self.user_by_key(key) {
                Some(u) => Some(u),
                None => if user.username == key {
                    Some(user)
                } else {
                    None
                },
            },
            (StoreView { users: self.users.push(user), ..self }).user_by_id(id) == match self.user_by_id(id) {
                Some(u) => Some(u),
                None => if user.id == id {
                    Some(user)
                } else {
                    None
                },
            },
    {
        let next = StoreView { users: self.users.push(user), ..self };
        assert(next.user_key_flags(key) =~= self.user_key_flags(key).push(user.username == key));
        assert(next.user_id_flags(id) =~= self.user_id_flags(id).push(user.id == id));
        lemma_first_true_push(self.user_key_flags(key), user.username == key);
        lemma_first_true_push(self.user_id_flags(id), user.id == id);
        lemma_first_true(self.user_key_flags(key));
        lemma_first_true(self.user_id_flags(id));
    }

    /// Appending a pending registration changes the lookup by code as
    /// appending its flag changes the search.
    pub proof fn lemma_pending_push(self, row: PendingView, code: Seq<char>)
        ensures
            (StoreView { pending: self.pending.push(row), ..self }).pending_by_code(code)
                == match self.pending_by_code(code) {
                Some(p) => Some(p),
                None => if row.code == code {
                    Some(row)
                } else {
                    None
                },
            },
    {
        let next = StoreView { pending: self.pending.push(row), ..self };
        assert(next.pending_code_flags(code) =~= self.pending_code_flags(code).push(row.code == code));
        lemma_first_true_push(self.pending_code_flags(code), row.code == code);
        lemma_first_true(self.pending_code_flags(code));
    }

    /// Appending an employee profile changes the lookup by id as appending
    /// its flag changes the search.
    pub proof fn lemma_employee_info_push(self, row: EmployeeInfoView, id: u64)
        ensures
            (StoreView { employee_info: self.employee_info.push(row), ..self }).employee_info_by_id(id)
                == match self.employee_info_by_id(id) {
                Some(e) => Some(e),
                None => if row.id == id {
                    Some(row)
                } else {
                    None
                },
            },
    {
        let next = StoreView { employee_info: self.employee_info.push(row), ..self };
        assert(next.employee_info_id_flags(id) =~= self.employee_info_id_flags(id).push(row.id == id));
        lemma_first_true_push(self.employee_info_id_flags(id), row.id == id);
        lemma_first_true(self.employee_info_id_flags(id));
    }

    /// Appending an employee account changes each lookup on the table as
    /// appending its flag changes the search.
    pub proof fn lemma_employee_logins_push(self, row: EmployeeLoginView, key: Seq<char>, id: u64)
        ensures
            (StoreView { employee_logins: self.employee_logins.push(row), ..self }).employee_by_key(key)
                == match self.employee_by_key(key) {
                Some(e) => Some(e),
                None => if row.username == key {
                    Some(row)
                } else {
                    None
                },
            },
            (StoreView { employee_logins: self.employee_logins.push(row), ..self }).employee_by_id(id)
                == match self.employee_by_id(id) {
                Some(e) => Some(e),
                None => if row.id == id {
                    Some(row)
                } else {
                    None
                },
            },
    {
        let next = StoreView { employee_logins: self.employee_logins.push(row), ..self };
        assert(next.employee_key_flags(key) =~= self.employee_key_flags(key).push(row.username == key));
        assert(next.employee_id_flags(id) =~= self.employee_id_flags(id).push(row.id == id));
        lemma_first_true_push(self.employee_key_flags(key), row.username == key);
        lemma_first_true_push(self.employee_id_flags(id), row.id == id);
        lemma_first_true(self.employee_key_flags(key));
        lemma_first_true(self.employee_id_flags(id));
    }

    /// Inserting an account keeps the constraints.
    pub proof fn lemma_with_user_wf(self, user: UserView)
        requires
            self.wf(),
        ensures
            self.with_user(user) matches Ok(next) ==> next.wf(),
    {
        if let Ok(next) = self.with_user(user) {
            lemma_first_true(self.user_id_flags(user.id));
            lemma_first_true(self.user_key_flags(user.username));
            assert forall|i: int, j: int| 0 <= i < j < next.users.len() implies (#[trigger] next.users[i]).id != (
            #[trigger] next.users[j]).id && next.users[i].username != next.users[j].username by {
                if j < self.users.len() {
                    assert(next.users[i] == self.users[i] && next.users[j] == self.users[j]);
                } else {
                    assert(next.users[i] == self.users[i]);
                    assert(!self.user_id_flags(user.id)[i]);
                    assert(!self.user_key_flags(user.username)[i]);
                }
            }
            assert forall|i: int| 0 <= i < next.sessions.len() implies next.user_by_id(
                (#[trigger] next.sessions[i]).owner,
            ) is Some by {
                self.lemma_users_push(user, user.username, self.sessions[i].owner);
            }
        }
    }

    /// Inserting a session keeps the constraints.
    pub proof fn lemma_with_session_wf(self, owner: u64, token: Seq<char>, expires: Timestamp)
        requires
            self.wf(),
        ensures
            self.with_session(owner, token, expires) matches Ok(next) ==> next.wf(),
    {
        if let Ok(next) = self.with_session(owner, token, expires) {
            let id = (self.last_session_id + 1) as u64;
            let session = SessionView { id, owner, token, expires };
            lemma_sessions_wf_push(self.sessions, self.last_session_id, session);
            assert(next.user_id_flags(owner) == self.user_id_flags(owner));
            assert forall|i: int| 0 <= i < next.sessions.len() implies next.user_by_id(
                (#[trigger] next.sessions[i]).owner,
            ) is Some by {
                if i < self.sessions.len() {
                    assert(next.sessions[i] == self.sessions[i]);
                    assert(next.user_id_flags(next.sessions[i].owner) == self.user_id_flags(
                        self.sessions[i].owner,
                    ));
                }
            }
        }
    }

    /// Inserting a pending registration keeps the constraints.
    pub proof fn lemma_with_pending_wf(self, citizen: i64, code: Seq<char>)
        requires
            self.wf(),
        ensures
            self.with_pending(citizen, code) matches Ok(next) ==> next.wf(),
    {
        if let Ok(next) = self.with_pending(citizen, code) {
            lemma_first_true(self.pending_code_flags(code));
            assert forall|i: int, j: int| 0 <= i < j < next.pending.len() implies (
            #[trigger] next.pending[i]).id != (#[trigger] next.pending[j]).id && next.pending[i].code
                != next.pending[j].code by {
                if j < self.pending.len() {
                    assert(next.pending[i] == self.pending[i] && next.pending[j] == self.pending[j]);
                } else {
                    assert(next.pending[i] == self.pending[i]);
                    assert(!self.pending_code_flags(code)[i]);
                }
            }
            assert forall|i: int| 0 <= i < next.pending.len() implies (#[trigger] next.pending[i]).id
                <= next.last_pending_id by {
                if i < self.pending.len() {
                    assert(next.pending[i] == self.pending[i]);
                }
            }
        }
    }

    /// Inserting an employee profile keeps the constraints.
    pub proof fn lemma_with_employee_info_wf(self, firstname: Seq<char>, lastname: Seq<char>)
        requires
            self.wf(),
        ensures
            self.with_employee_info(firstname, lastname) matches Ok(next) ==> next.wf(),
    {
        if let Ok(next) = self.with_employee_info(firstname, lastname) {
            let row = next.employee_info[self.employee_info.len() as int];
            assert forall|i: int, j: int| 0 <= i < j < next.employee_info.len() implies (
            #[trigger] next.employee_info[i]).id != (#[trigger] next.employee_info[j]).id by {
                if j < self.employee_info.len() {
                    assert(next.employee_info[i] == self.employee_info[i] && next.employee_info[j]
                        == self.employee_info[j]);
                } else {
                    assert(next.employee_info[i] == self.employee_info[i]);
                }
            }
            assert forall|i: int| 0 <= i < next.employee_info.len() implies (
            #[trigger] next.employee_info[i]).id <= next.last_employee_info_id by {
                if i < self.employee_info.len() {
                    assert(next.employee_info[i] == self.employee_info[i]);
                }
            }
            assert forall|i: int| 0 <= i < next.employee_logins.len() implies (
            #[trigger] next.employee_logins[i]).id <= next.last_employee_login_id
                && next.employee_info_by_id(next.employee_logins[i].info_id) is Some by {
                self.lemma_employee_info_push(row, self.employee_logins[i].info_id);
            }
        }
    }

    /// Inserting an employee account keeps the constraints.
    pub proof fn lemma_with_employee_login_wf(self, info_id: u64, username: Seq<char>, hash: Seq<char>)
        requires
            self.wf(),
        ensures
            self.with_employee_login(info_id, username, hash) matches Ok(next) ==> next.wf(),
    {
        if let Ok(next) = self.with_employee_login(info_id, username, hash) {
            let row = next.employee_logins[self.employee_logins.len() as int];
            lemma_first_true(self.employee_key_flags(username));
            assert forall|i: int, j: int| 0 <= i < j < next.employee_logins.len() implies (
            #[trigger] next.employee_logins[i]).id != (#[trigger] next.employee_logins[j]).id
                && next.employee_logins[i].username != next.employee_logins[j].username by {
                if j < self.employee_logins.len() {
                    assert(next.employee_logins[i] == self.employee_logins[i] && next.employee_logins[j]
                        == self.employee_logins[j]);
                } else {
                    assert(next.employee_logins[i] == self.employee_logins[i]);
                    assert(!self.employee_key_flags(username)[i]);
                }
            }
            assert forall|i: int| 0 <= i < next.employee_logins.len() implies (
            #[trigger] next.employee_logins[i]).id <= next.last_employee_login_id
                && next.employee_info_by_id(next.employee_logins[i].info_id) is Some by {
                assert(next.employee_info_id_flags(next.employee_logins[i].info_id)
                    == self.employee_info_id_flags(next.employee_logins[i].info_id));
                if i < self.employee_logins.len() {
                    assert(next.employee_logins[i] == self.employee_logins[i]);
                }
            }
            assert forall|i: int| 0 <= i < next.employee_sessions.len() implies next.employee_by_id(
                (#[trigger] next.employee_sessions[i]).owner,
            ) is Some by {
                self.lemma_employee_logins_push(row, username, self.employee_sessions[i].owner);
            }
        }
    }

    /// Inserting an employee session keeps the constraints.
    pub proof fn lemma_with_employee_session_wf(self, owner: u64, token: Seq<char>, expires: Timestamp)
        requires
            self.wf(),
        ensures
            self.with_employee_session(owner, token, expires) matches Ok(next) ==> next.wf(),
    {
        if let Ok(next) = self.with_employee_session(owner, token, expires) {
            let id = (self.last_employee_session_id + 1) as u64;
            let session = SessionView { id, owner, token, expires };
            lemma_sessions_wf_push(self.employee_sessions, self.last_employee_session_id, session);
            assert forall|i: int| 0 <= i < next.employee_sessions.len() implies next.employee_by_id(
                (#[trigger] next.employee_sessions[i]).owner,
            ) is Some by {
                assert(next.employee_id_flags(next.employee_sessions[i].owner) == self.employee_id_flags(
                    next.employee_sessions[i].owner,
                ));
                if i < self.employee_sessions.len() {
                    assert(next.employee_sessions[i] == self.employee_sessions[i]);
                }
            }
        }
    }
}

impl StoreView {
    /// Putting a persisted session back keeps the constraints.
    pub proof fn lemma_with_restored_session_wf(self, row: SessionView)
        requires
            self.wf(),
        ensures
            self.with_restored_session(row) matches Ok(next) ==> next.wf(),
    {
        if let Ok(next) = self.with_restored_session(row) {
            lemma_sessions_wf_push(self.sessions, self.last_session_id, row);
            assert forall|i: int| 0 <= i < next.sessions.len() implies next.user_by_id(
                (#[trigger] next.sessions[i]).owner,
            ) is Some by {
                assert(next.user_id_flags(next.sessions[i].owner) == self.user_id_flags(next.sessions[i].owner));
                if i < self.sessions.len() {
                    assert(next.sessions[i] == self.sessions[i]);
                }
            }
        }
    }

    /// Putting a persisted pending registration back keeps the constraints.
    pub proof fn lemma_with_restored_pending_wf(self, row: PendingView)
        requires
            self.wf(),
        ensures
            self.with_restored_pending(row) matches Ok(next) ==> next.wf(),
    {
        if let Ok(next) = self.with_restored_pending(row) {
            lemma_first_true(self.pending_code_flags(row.code));
            lemma_first_true(self.pending_id_flags(row.id));
            assert forall|i: int, j: int| 0 <= i < j < next.pending.len() implies (
            #[trigger] next.pending[i]).id != (#[trigger] next.pending[j]).id && next.pending[i].code
                != next.pending[j].code by {
                if j < self.pending.len() {
                    assert(next.pending[i] == self.pending[i] && next.pending[j] == self.pending[j]);
                } else {
                    assert(next.pending[i] == self.pending[i]);
                    assert(!self.pending_code_flags(row.code)[i]);
                    assert(!self.pending_id_flags(row.id)[i]);
                }
            }
            assert forall|i: int| 0 <= i < next.pending.len() implies (#[trigger] next.pending[i]).id
                <= next.last_pending_id by {
                if i < self.pending.len() {
                    assert(next.pending[i] == self.pending[i]);
                }
            }
        }
    }

    /// Putting a persisted employee profile back keeps the constraints.
    pub proof fn lemma_with_restored_employee_info_wf(self, row: EmployeeInfoView)
        requires
            self.wf(),
        ensures
            self.with_restored_employee_info(row) matches Ok(next) ==> next.wf(),
    {
        if let Ok(next) = self.with_restored_employee_info(row) {
            lemma_first_true(self.employee_info_id_flags(row.id));
            assert forall|i: int, j: int| 0 <= i < j < next.employee_info.len() implies (
            #[trigger] next.employee_info[i]).id != (#[trigger] next.employee_info[j]).id by {
                if j < self.employee_info.len() {
                    assert(next.employee_info[i] == self.employee_info[i] && next.employee_info[j]
                        == self.employee_info[j]);
                } else {
                    assert(next.employee_info[i] == self.employee_info[i]);
                    assert(!self.employee_info_id_flags(row.id)[i]);
                }
            }
            assert forall|i: int| 0 <= i < next.employee_info.len() implies (
            #[trigger] next.employee_info[i]).id <= next.last_employee_info_id by {
                if i < self.employee_info.len() {
                    assert(next.employee_info[i] == self.employee_info[i]);
                }
            }
            assert forall|i: int| 0 <= i < next.employee_logins.len() implies (
            #[trigger] next.employee_logins[i]).id <= next.last_employee_login_id
                && next.employee_info_by_id(next.employee_logins[i].info_id) is Some by {
                self.lemma_employee_info_push(row, self.employee_logins[i].info_id);
            }
        }
    }

    /// Putting a persisted employee account back keeps the constraints.
    pub proof fn lemma_with_restored_employee_login_wf(self, row: EmployeeLoginView)
        requires
            self.wf(),
        ensures
            self.with_restored_employee_login(row) matches Ok(next) ==> next.wf(),
    {
        if let Ok(next) = self.with_restored_employee_login(row) {
            lemma_first_true(self.employee_key_flags(row.username));
            lemma_first_true(self.employee_id_flags(row.id));
            assert forall|i: int, j: int| 0 <= i < j < next.employee_logins.len() implies (
            #[trigger] next.employee_logins[i]).id != (#[trigger] next.employee_logins[j]).id
                && next.employee_logins[i].username != next.employee_logins[j].username by {
                if j < self.employee_logins.len() {
                    assert(next.employee_logins[i] == self.employee_logins[i] && next.employee_logins[j]
                        == self.employee_logins[j]);
                } else {
                    assert(next.employee_logins[i] == self.employee_logins[i]);
                    assert(!self.employee_key_flags(row.username)[i]);
                    assert(!self.employee_id_flags(row.id)[i]);
                }
            }
            assert forall|i: int| 0 <= i < next.employee_logins.len() implies (
            #[trigger] next.employee_logins[i]).id <= next.last_employee_login_id
                && next.employee_info_by_id(next.employee_logins[i].info_id) is Some by {
                assert(next.employee_info_id_flags(next.employee_logins[i].info_id)
                    == self.employee_info_id_flags(next.employee_logins[i].info_id));
                if i < self.employee_logins.len() {
                    assert(next.employee_logins[i] == self.employee_logins[i]);
                }
            }
            assert forall|i: int| 0 <= i < next.employee_sessions.len() implies next.employee_by_id(
                (#[trigger] next.employee_sessions[i]).owner,
            ) is Some by {
                self.lemma_employee_logins_push(row, row.username, self.employee_sessions[i].owner);
            }
        }
    }

    /// Putting a persisted employee session back keeps the constraints.
    pub proof fn lemma_with_restored_employee_session_wf(self, row: SessionView)
        requires
            self.wf(),
        ensures
            self.with_restored_employee_session(row) matches Ok(next) ==> next.wf(),
    {
        if let Ok(next) = self.with_restored_employee_session(row) {
            lemma_sessions_wf_push(self.employee_sessions, self.last_employee_session_id, row);
            assert forall|i: int| 0 <= i < next.employee_sessions.len() implies next.employee_by_id(
                (#[trigger] next.employee_sessions[i]).owner,
            ) is Some by {
                assert(next.employee_id_flags(next.employee_sessions[i].owner) == self.employee_id_flags(
                    next.employee_sessions[i].owner,
                ));
                if i < self.employee_sessions.len() {
                    assert(next.employee_sessions[i] == self.employee_sessions[i]);
                }
            }
        }
    }
}

} // verus!
