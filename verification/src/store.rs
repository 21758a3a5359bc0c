//! The identity store: the tables behind accounts, sessions and pending
//! registrations, with the lookups and insertions that the flows use.

use vstd::prelude::*;
use crate::employee::{EmployeeInfoModel, EmployeeInfoView, EmployeeLogin, EmployeeSession};
use crate::errors::DatabaseError;
use crate::model::{
    first_session_of, later_id, owner_flags, rows_view, session_by_id,
    session_by_token, session_id_flags, StoreView, token_flags, viewed,
};
use crate::search::{lemma_first_true_is, lemma_none_true};
use crate::session::{Timestamp, UserSession};
use crate::text::same_text;
use crate::token::{generate_pending_code, is_pending_code};
use crate::user::{PendingUser, PendingView, User, UserView};

verus! {

/// The rows of the six tables and the highest id each table has assigned.
struct Tables {
    users: Vec<User>,
    sessions: Vec<UserSession>,
    pending: Vec<PendingUser>,
    employee_info: Vec<EmployeeInfoModel>,
    employee_logins: Vec<EmployeeLogin>,
    employee_sessions: Vec<EmployeeSession>,
    last_session_id: u64,
    last_pending_id: u64,
    last_employee_info_id: u64,
    last_employee_login_id: u64,
    last_employee_session_id: u64,
}

impl View for Tables {
    type V = StoreView;

    closed spec fn view(&self) -> StoreView {
        StoreView {
            users: rows_view(self.users@),
            sessions: rows_view(self.sessions@),
            pending: rows_view(self.pending@),
            employee_info: rows_view(self.employee_info@),
            employee_logins: rows_view(self.employee_logins@),
            employee_sessions: rows_view(self.employee_sessions@),
            last_session_id: self.last_session_id,
            last_pending_id: self.last_pending_id,
            last_employee_info_id: self.last_employee_info_id,
            last_employee_login_id: self.last_employee_login_id,
            last_employee_session_id: self.last_employee_session_id,
        }
    }
}

impl Tables {
    fn empty() -> (tables: Tables)
        ensures
            tables@ == StoreView::empty(),
    {
        let tables = Tables {
            users: Vec::new(),
            sessions: Vec::new(),
            pending: Vec::new(),
            employee_info: Vec::new(),
            employee_logins: Vec::new(),
            employee_sessions: Vec::new(),
            last_session_id: 0,
            last_pending_id: 0,
            last_employee_info_id: 0,
            last_employee_login_id: 0,
            last_employee_session_id: 0,
        };
        proof {
            assert(tables@ =~= StoreView::empty());
        }
        tables
    }
}

/// The persisted state of the service. Its tables keep, at all times, the
/// constraints that `StoreView::wf` states.
pub struct IdentityStore {
    tables: Tables,
}

impl View for IdentityStore {
    type V = StoreView;

    closed spec fn view(&self) -> StoreView {
        self.tables@
    }
}

impl IdentityStore {
    /// The tables keep their constraints. This holds of every store there
    /// is: `use_type_invariant` tells so.
    #[verifier::type_invariant]
    pub open spec fn well_formed(&self) -> bool {
        self@.wf()
    }
}

impl IdentityStore {
    /// Takes the tables out to change them, and leaves empty ones behind:
    /// the store is well formed at every instant.
    fn take_tables(&mut self) -> (tables: Tables)
        ensures
            tables@ == old(self)@,
            final(self)@ == StoreView::empty(),
    {
        let mut tables = Tables::empty();
        core::mem::swap(&mut self.tables, &mut tables);
        tables
    }

    /// Puts tables in that keep the constraints.
    fn put_tables(&mut self, tables: Tables)
        requires
            tables@.wf(),
        ensures
            final(self)@ == tables@,
    {
        let mut tables = tables;
        core::mem::swap(&mut self.tables, &mut tables);
    }
}

proof fn lemma_rows_view_push<T: View>(rows: Seq<T>, row: T)
    ensures
        rows_view(rows.push(row)) == rows_view(rows).push(row@),
{
    assert(rows_view(rows.push(row)) =~= rows_view(rows).push(row@));
}

impl IdentityStore {
    /// A store without any row.
    pub fn new() -> (store: IdentityStore)
        ensures
            store@ == StoreView::empty(),
            store@.wf(),
    {
        IdentityStore { tables: Tables::empty() }
    }

    /// The account with the login key `login_key`.
    pub fn find_account_by_key(&self, login_key: &str) -> (found: Option<User>)
        ensures
            viewed(found) == self@.user_by_key(login_key@),
    {
        let ghost flags = self@.user_key_flags(login_key@);
        let mut i: usize = 0;
        while i < self.tables.users.len()
            invariant
                i <= self.tables.users@.len(),
                flags == self@.user_key_flags(login_key@),
                forall|j: int| 0 <= j < i ==> !#[trigger] flags[j],
            decreases self.tables.users@.len() - i,
        {
            if same_text(self.tables.users[i].username.as_str(), login_key) {
                proof {
                    lemma_first_true_is(flags, i as int);
                }
                return Some(self.tables.users[i].clone());
            }
            i = i + 1;
        }
        proof {
            lemma_none_true(flags);
        }
        None
    }

    /// The account with the id `id`.
    pub fn find_account_by_id(&self, id: u64) -> (found: Option<User>)
        ensures
            viewed(found) == self@.user_by_id(id),
    {
        let ghost flags = self@.user_id_flags(id);
        let mut i: usize = 0;
        while i < self.tables.users.len()
            invariant
                i <= self.tables.users@.len(),
                flags == self@.user_id_flags(id),
                forall|j: int| 0 <= j < i ==> !#[trigger] flags[j],
            decreases self.tables.users@.len() - i,
        {
            if self.tables.users[i].id == id {
                proof {
                    lemma_first_true_is(flags, i as int);
                }
                return Some(self.tables.users[i].clone());
            }
            i = i + 1;
        }
        proof {
            lemma_none_true(flags);
        }
        None
    }

    /// The oldest session of the account `owner_id`, valid or not.
    pub fn find_session_by_owner(&self, owner_id: u64) -> (found: Option<UserSession>)
        ensures
            viewed(found) == first_session_of(self@.sessions, owner_id),
    {
        let ghost flags = owner_flags(self@.sessions, owner_id);
        let mut i: usize = 0;
        while i < self.tables.sessions.len()
            invariant
                i <= self.tables.sessions@.len(),
                flags == owner_flags(self@.sessions, owner_id),
                forall|j: int| 0 <= j < i ==> !#[trigger] flags[j],
            decreases self.tables.sessions@.len() - i,
        {
            if self.tables.sessions[i].user_id == owner_id {
                proof {
                    lemma_first_true_is(flags, i as int);
                }
                return Some(self.tables.sessions[i].clone());
            }
            i = i + 1;
        }
        proof {
            lemma_none_true(flags);
        }
        None
    }

    /// The session that carries exactly `token`, valid or not.
    pub fn find_session_by_token(&self, token: &str) -> (found: Option<UserSession>)
        ensures
            viewed(found) == session_by_token(self@.sessions, token@),
    {
        let ghost flags = token_flags(self@.sessions, token@);
        let mut i: usize = 0;
        while i < self.tables.sessions.len()
            invariant
                i <= self.tables.sessions@.len(),
                flags == token_flags(self@.sessions, token@),
                forall|j: int| 0 <= j < i ==> !#[trigger] flags[j],
            decreases self.tables.sessions@.len() - i,
        {
            if same_text(self.tables.sessions[i].token.as_str(), token) {
                proof {
                    lemma_first_true_is(flags, i as int);
                }
                return Some(self.tables.sessions[i].clone());
            }
            i = i + 1;
        }
        proof {
            lemma_none_true(flags);
        }
        None
    }

    /// The pending registration that carries exactly `code`.
    pub fn find_pending_registration_by_code(&self, code: &str) -> (found: Option<PendingUser>)
        ensures
            viewed(found) == self@.pending_by_code(code@),
    {
        let ghost flags = self@.pending_code_flags(code@);
        let mut i: usize = 0;
        while i < self.tables.pending.len()
            invariant
                i <= self.tables.pending@.len(),
                flags == self@.pending_code_flags(code@),
                forall|j: int| 0 <= j < i ==> !#[trigger] flags[j],
            decreases self.tables.pending@.len() - i,
        {
            if same_text(self.tables.pending[i].code.as_str(), code) {
                proof {
                    lemma_first_true_is(flags, i as int);
                }
                return Some(self.tables.pending[i].clone());
            }
            i = i + 1;
        }
        proof {
            lemma_none_true(flags);
        }
        None
    }

    /// The employee profile with the id `id`.
    pub fn find_employee_info_by_id(&self, id: u64) -> (found: Option<EmployeeInfoModel>)
        ensures
            viewed(found) == self@.employee_info_by_id(id),
    {
        let ghost flags = self@.employee_info_id_flags(id);
        let mut i: usize = 0;
        while i < self.tables.employee_info.len()
            invariant
                i <= self.tables.employee_info@.len(),
                flags == self@.employee_info_id_flags(id),
                forall|j: int| 0 <= j < i ==> !#[trigger] flags[j],
            decreases self.tables.employee_info@.len() - i,
        {
            if self.tables.employee_info[i].id == id {
                proof {
                    lemma_first_true_is(flags, i as int);
                }
                return Some(self.tables.employee_info[i].clone());
            }
            i = i + 1;
        }
        proof {
            lemma_none_true(flags);
        }
        None
    }

    /// The employee account with the login key `login_key`.
    pub fn find_employee_by_key(&self, login_key: &str) -> (found: Option<EmployeeLogin>)
        ensures
            viewed(found) == self@.employee_by_key(login_key@),
    {
        let ghost flags = self@.employee_key_flags(login_key@);
        let mut i: usize = 0;
        while i < self.tables.employee_logins.len()
            invariant
                i <= self.tables.employee_logins@.len(),
                flags == self@.employee_key_flags(login_key@),
                forall|j: int| 0 <= j < i ==> !#[trigger] flags[j],
            decreases self.tables.employee_logins@.len() - i,
        {
            if same_text(self.tables.employee_logins[i].username.as_str(), login_key) {
                proof {
                    lemma_first_true_is(flags, i as int);
                }
                return Some(self.tables.employee_logins[i].clone());
            }
            i = i + 1;
        }
        proof {
            lemma_none_true(flags);
        }
        None
    }

    /// The employee account with the id `id`.
    pub fn find_employee_by_id(&self, id: u64) -> (found: Option<EmployeeLogin>)
        ensures
            viewed(found) == self@.employee_by_id(id),
    {
        let ghost flags = self@.employee_id_flags(id);
        let mut i: usize = 0;
        while i < self.tables.employee_logins.len()
            invariant
                i <= self.tables.employee_logins@.len(),
                flags == self@.employee_id_flags(id),
                forall|j: int| 0 <= j < i ==> !#[trigger] flags[j],
            decreases self.tables.employee_logins@.len() - i,
        {
            if self.tables.employee_logins[i].id == id {
                proof {
                    lemma_first_true_is(flags, i as int);
                }
                return Some(self.tables.employee_logins[i].clone());
            }
            i = i + 1;
        }
        proof {
            lemma_none_true(flags);
        }
        None
    }

    /// The employee session that carries exactly `token`, valid or not.
    pub fn find_employee_session_by_token(&self, token: &str) -> (found: Option<EmployeeSession>)
        ensures
            viewed(found) == session_by_token(self@.employee_sessions, token@),
    {
        let ghost flags = token_flags(self@.employee_sessions, token@);
        let mut i: usize = 0;
        while i < self.tables.employee_sessions.len()
            invariant
                i <= self.tables.employee_sessions@.len(),
                flags == token_flags(self@.employee_sessions, token@),
                forall|j: int| 0 <= j < i ==> !#[trigger] flags[j],
            decreases self.tables.employee_sessions@.len() - i,
        {
            if same_text(self.tables.employee_sessions[i].token.as_str(), token) {
                proof {
                    lemma_first_true_is(flags, i as int);
                }
                return Some(self.tables.employee_sessions[i].clone());
            }
            i = i + 1;
        }
        proof {
            lemma_none_true(flags);
        }
        None
    }
}

impl IdentityStore {
    /// Inserts an account. A taken id or login key is a `Duplicate`, and
    /// the store stays as it was.
    pub fn create_account(&mut self, login_key: &str, secret_hash: &str, id: u64) -> (created: Result<
        (),
        DatabaseError,
    >)
        ensures
            final(self)@.wf(),
            match old(self)@.with_user(UserView { id, username: login_key@, hash: secret_hash@ }) {
                Ok(next) => created is Ok && final(self)@ == next,
                Err(e) => created == Err::<(), DatabaseError>(e) && final(self)@ == old(self)@,
            },
    {
        proof {
            use_type_invariant(&*self);
        }
        if self.find_account_by_id(id).is_some() || self.find_account_by_key(login_key).is_some() {
            return Err(DatabaseError::Duplicate);
        }
        let user = User { id, username: login_key.to_owned(), hash: secret_hash.to_owned() };
        proof {
            lemma_rows_view_push(self.tables.users@, user);
            self@.lemma_with_user_wf(user@);
        }
        let mut tables = self.take_tables();
        tables.users.push(user);
        proof {
            assert(tables@ =~= old(self)@.with_user(
                UserView { id, username: login_key@, hash: secret_hash@ },
            )->Ok_0);
        }
        self.put_tables(tables);
        Ok(())
    }

    /// Inserts a session of the account `owner_id` under the next id of
    /// the table. A taken token is a `Duplicate`, an owner that does not
    /// exist a `Constraint`; on any error the store stays as it was.
    pub fn create_session(&mut self, owner_id: u64, token: &str, expires_at: Timestamp) -> (created: Result<
        (),
        DatabaseError,
    >)
        ensures
            final(self)@.wf(),
            match old(self)@.with_session(owner_id, token@, expires_at) {
                Ok(next) => created is Ok && final(self)@ == next,
                Err(e) => created == Err::<(), DatabaseError>(e) && final(self)@ == old(self)@,
            },
    {
        proof {
            use_type_invariant(&*self);
        }
        if self.find_session_by_token(token).is_some() {
            return Err(DatabaseError::Duplicate);
        }
        if self.find_account_by_id(owner_id).is_none() {
            return Err(DatabaseError::Constraint);
        }
        if self.tables.last_session_id == u64::MAX {
            return Err(DatabaseError::Other);
        }
        let id: u64 = self.tables.last_session_id + 1;
        let session = UserSession { id, user_id: owner_id, token: token.to_owned(), expires: expires_at };
        proof {
            lemma_rows_view_push(self.tables.sessions@, session);
            self@.lemma_with_session_wf(owner_id, token@, expires_at);
        }
        let mut tables = self.take_tables();
        tables.sessions.push(session);
        tables.last_session_id = id;
        proof {
            assert(tables@ =~= old(self)@.with_session(owner_id, token@, expires_at)->Ok_0);
        }
        self.put_tables(tables);
        Ok(())
    }

    /// Inserts a pending registration of `citizen_id` that carries `code`,
    /// under the next id of the table, and returns the row. A taken code is
    /// a `Duplicate`; on any error the store stays as it was.
    pub fn insert_pending_registration(&mut self, citizen_id: i64, code: String) -> (created: Result<
        PendingUser,
        DatabaseError,
    >)
        ensures
            final(self)@.wf(),
            match old(self)@.with_pending(citizen_id, code@) {
                Ok(next) => created matches Ok(row) && final(self)@ == next && row@ == (PendingView {
                    id: next.last_pending_id,
                    citizen: citizen_id,
                    code: code@,
                }),
                Err(e) => created matches Err(error) && error == e && final(self)@ == old(self)@,
            },
    {
        proof {
            use_type_invariant(&*self);
        }
        if self.find_pending_registration_by_code(code.as_str()).is_some() {
            return Err(DatabaseError::Duplicate);
        }
        if self.tables.last_pending_id == u64::MAX {
            return Err(DatabaseError::Other);
        }
        let id: u64 = self.tables.last_pending_id + 1;
        let row = PendingUser { id, citizen: citizen_id, code };
        let copy = row.clone();
        proof {
            lemma_rows_view_push(self.tables.pending@, row);
            self@.lemma_with_pending_wf(citizen_id, code@);
        }
        let mut tables = self.take_tables();
        tables.pending.push(row);
        tables.last_pending_id = id;
        proof {
            assert(tables@ =~= old(self)@.with_pending(citizen_id, code@)->Ok_0);
        }
        self.put_tables(tables);
        Ok(copy)
    }

    /// Draws a fresh code and inserts a pending registration that carries
    /// it. Whatever code was drawn, the outcome is the one that
    /// `insert_pending_registration` has for it.
    pub fn create_pending_registration(&mut self, citizen_id: i64) -> (created: Result<
        PendingUser,
        DatabaseError,
    >)
        ensures
            final(self)@.wf(),
            exists|code: Seq<char>|
                is_pending_code(code) && match #[trigger] old(self)@.with_pending(citizen_id, code) {
                    Ok(next) => created matches Ok(row) && final(self)@ == next && row@ == (PendingView {
                        id: next.last_pending_id,
                        citizen: citizen_id,
                        code,
                    }),
                    Err(e) => created matches Err(error) && error == e && final(self)@ == old(self)@,
                },
    {
        proof {
            use_type_invariant(&*self);
        }
        let code = generate_pending_code();
        self.insert_pending_registration(citizen_id, code)
    }

    /// Inserts an employee profile under the next id of the table and
    /// returns the row, which carries the id it was given.
    pub fn create_employee_info(&mut self, firstname: &str, lastname: &str) -> (created: Result<
        EmployeeInfoModel,
        DatabaseError,
    >)
        ensures
            final(self)@.wf(),
            match old(self)@.with_employee_info(firstname@, lastname@) {
                Ok(next) => created matches Ok(row) && final(self)@ == next && row@ == (EmployeeInfoView {
                    id: next.last_employee_info_id,
                    firstname: firstname@,
                    lastname: lastname@,
                }),
                Err(e) => created matches Err(error) && error == e && final(self)@ == old(self)@,
            },
    {
        proof {
            use_type_invariant(&*self);
        }
        if self.tables.last_employee_info_id == u64::MAX {
            return Err(DatabaseError::Other);
        }
        let id: u64 = self.tables.last_employee_info_id + 1;
        let row = EmployeeInfoModel { id, firstname: firstname.to_owned(), lastname: lastname.to_owned() };
        let copy = row.clone();
        proof {
            lemma_rows_view_push(self.tables.employee_info@, row);
            self@.lemma_with_employee_info_wf(firstname@, lastname@);
        }
        let mut tables = self.take_tables();
        tables.employee_info.push(row);
        tables.last_employee_info_id = id;
        proof {
            assert(tables@ =~= old(self)@.with_employee_info(firstname@, lastname@)->Ok_0);
        }
        self.put_tables(tables);
        Ok(copy)
    }

    /// Inserts an employee account that refers to the profile `info_id`,
    /// under the next id of the table. A taken login key is a `Duplicate`,
    /// a profile that does not exist a `Constraint`; on any error the store
    /// stays as it was.
    pub fn create_employee_login(&mut self, info_id: u64, username: &str, hash: &str) -> (created: Result<
        (),
        DatabaseError,
    >)
        ensures
            final(self)@.wf(),
            match old(self)@.with_employee_login(info_id, username@, hash@) {
                Ok(next) => created is Ok && final(self)@ == next,
                Err(e) => created == Err::<(), DatabaseError>(e) && final(self)@ == old(self)@,
            },
    {
        proof {
            use_type_invariant(&*self);
        }
        if self.find_employee_by_key(username).is_some() {
            return Err(DatabaseError::Duplicate);
        }
        if self.find_employee_info_by_id(info_id).is_none() {
            return Err(DatabaseError::Constraint);
        }
        if self.tables.last_employee_login_id == u64::MAX {
            return Err(DatabaseError::Other);
        }
        let id: u64 = self.tables.last_employee_login_id + 1;
        let row = EmployeeLogin { id, info_id, username: username.to_owned(), hash: hash.to_owned() };
        proof {
            lemma_rows_view_push(self.tables.employee_logins@, row);
            self@.lemma_with_employee_login_wf(info_id, username@, hash@);
        }
        let mut tables = self.take_tables();
        tables.employee_logins.push(row);
        tables.last_employee_login_id = id;
        proof {
            assert(tables@ =~= old(self)@.with_employee_login(info_id, username@, hash@)->Ok_0);
        }
        self.put_tables(tables);
        Ok(())
    }

    /// Inserts a session of the employee account `owner_id` under the next
    /// id of the table. A taken token is a `Duplicate`, an owner that does
    /// not exist a `Constraint`; on any error the store stays as it was.
    pub fn create_employee_session(&mut self, owner_id: u64, token: &str, expires_at: Timestamp) -> (created:
        Result<(), DatabaseError>)
        ensures
            final(self)@.wf(),
            match old(self)@.with_employee_session(owner_id, token@, expires_at) {
                Ok(next) => created is Ok && final(self)@ == next,
                Err(e) => created == Err::<(), DatabaseError>(e) && final(self)@ == old(self)@,
            },
    {
        proof {
            use_type_invariant(&*self);
        }
        if self.find_employee_session_by_token(token).is_some() {
            return Err(DatabaseError::Duplicate);
        }
        if self.find_employee_by_id(owner_id).is_none() {
            return Err(DatabaseError::Constraint);
        }
        if self.tables.last_employee_session_id == u64::MAX {
            return Err(DatabaseError::Other);
        }
        let id: u64 = self.tables.last_employee_session_id + 1;
        let session = EmployeeSession { id, e_id: owner_id, token: token.to_owned(), expires: expires_at };
        proof {
            lemma_rows_view_push(self.tables.employee_sessions@, session);
            self@.lemma_with_employee_session_wf(owner_id, token@, expires_at);
        }
        let mut tables = self.take_tables();
        tables.employee_sessions.push(session);
        tables.last_employee_session_id = id;
        proof {
            assert(tables@ =~= old(self)@.with_employee_session(owner_id, token@, expires_at)->Ok_0);
        }
        self.put_tables(tables);
        Ok(())
    }
}

impl IdentityStore {
    /// The accounts, in the order of their insertion.
    pub fn users(&self) -> (rows: &Vec<User>)
        ensures
            rows_view(rows@) == self@.users,
    {
        &self.tables.users
    }

    /// The sessions of accounts, in the order of their insertion.
    pub fn sessions(&self) -> (rows: &Vec<UserSession>)
        ensures
            rows_view(rows@) == self@.sessions,
    {
        &self.tables.sessions
    }

    /// The pending registrations, in the order of their insertion.
    pub fn pending_users(&self) -> (rows: &Vec<PendingUser>)
        ensures
            rows_view(rows@) == self@.pending,
    {
        &self.tables.pending
    }

    /// The employee profiles, in the order of their insertion.
    pub fn employee_info(&self) -> (rows: &Vec<EmployeeInfoModel>)
        ensures
            rows_view(rows@) == self@.employee_info,
    {
        &self.tables.employee_info
    }

    /// The employee accounts, in the order of their insertion.
    pub fn employee_logins(&self) -> (rows: &Vec<EmployeeLogin>)
        ensures
            rows_view(rows@) == self@.employee_logins,
    {
        &self.tables.employee_logins
    }

    /// The sessions of employee accounts, in the order of their insertion.
    pub fn employee_sessions(&self) -> (rows: &Vec<EmployeeSession>)
        ensures
            rows_view(rows@) == self@.employee_sessions,
    {
        &self.tables.employee_sessions
    }
}

fn later_of(a: u64, b: u64) -> (later: u64)
    ensures
        later == later_id(a, b),
{
    if a >= b {
        a
    } else {
        b
    }
}

impl IdentityStore {
    /// The session with the id `id`.
    pub fn find_session_by_id(&self, id: u64) -> (found: Option<UserSession>)
        ensures
            viewed(found) == session_by_id(self@.sessions, id),
    {
        let ghost flags = session_id_flags(self@.sessions, id);
        let mut i: usize = 0;
        while i < self.tables.sessions.len()
            invariant
                i <= self.tables.sessions@.len(),
                flags == session_id_flags(self@.sessions, id),
                forall|j: int| 0 <= j < i ==> !#[trigger] flags[j],
            decreases self.tables.sessions@.len() - i,
        {
            if self.tables.sessions[i].id == id {
                proof {
                    lemma_first_true_is(flags, i as int);
                }
                return Some(self.tables.sessions[i].clone());
            }
            i = i + 1;
        }
        proof {
            lemma_none_true(flags);
        }
        None
    }

    /// The pending registration with the id `id`.
    pub fn find_pending_registration_by_id(&self, id: u64) -> (found: Option<PendingUser>)
        ensures
            viewed(found) == self@.pending_by_id(id),
    {
        let ghost flags = self@.pending_id_flags(id);
        let mut i: usize = 0;
        while i < self.tables.pending.len()
            invariant
                i <= self.tables.pending@.len(),
                flags == self@.pending_id_flags(id),
                forall|j: int| 0 <= j < i ==> !#[trigger] flags[j],
            decreases self.tables.pending@.len() - i,
        {
            if self.tables.pending[i].id == id {
                proof {
                    lemma_first_true_is(flags, i as int);
                }
                return Some(self.tables.pending[i].clone());
            }
            i = i + 1;
        }
        proof {
            lemma_none_true(flags);
        }
        None
    }

    /// The employee session with the id `id`.
    pub fn find_employee_session_by_id(&self, id: u64) -> (found: Option<EmployeeSession>)
        ensures
            viewed(found) == session_by_id(self@.employee_sessions, id),
    {
        let ghost flags = session_id_flags(self@.employee_sessions, id);
        let mut i: usize = 0;
        while i < self.tables.employee_sessions.len()
            invariant
                i <= self.tables.employee_sessions@.len(),
                flags == session_id_flags(self@.employee_sessions, id),
                forall|j: int| 0 <= j < i ==> !#[trigger] flags[j],
            decreases self.tables.employee_sessions@.len() - i,
        {
            if self.tables.employee_sessions[i].id == id {
                proof {
                    lemma_first_true_is(flags, i as int);
                }
                return Some(self.tables.employee_sessions[i].clone());
            }
            i = i + 1;
        }
        proof {
            lemma_none_true(flags);
        }
        None
    }

    /// Puts a session back that was persisted before, under its own id.
    /// A taken id or token is a `Duplicate`, an owner that does not exist
    /// a `Constraint`; on any error the store stays as it was.
    pub fn restore_session(&mut self, row: UserSession) -> (restored: Result<(), DatabaseError>)
        ensures
            final(self)@.wf(),
            match old(self)@.with_restored_session(row@) {
                Ok(next) => restored is Ok && final(self)@ == next,
                Err(e) => restored == Err::<(), DatabaseError>(e) && final(self)@ == old(self)@,
            },
    {
        proof {
            use_type_invariant(&*self);
        }
        if self.find_session_by_id(row.id).is_some() || self.find_session_by_token(row.token.as_str()).is_some() {
            return Err(DatabaseError::Duplicate);
        }
        if self.find_account_by_id(row.user_id).is_none() {
            return Err(DatabaseError::Constraint);
        }
        let last = later_of(self.tables.last_session_id, row.id);
        proof {
            lemma_rows_view_push(self.tables.sessions@, row);
            self@.lemma_with_restored_session_wf(row@);
        }
        let mut tables = self.take_tables();
        tables.sessions.push(row);
        tables.last_session_id = last;
        proof {
            assert(tables@ =~= old(self)@.with_restored_session(row@)->Ok_0);
        }
        self.put_tables(tables);
        Ok(())
    }

    /// Puts a pending registration back that was persisted before, under
    /// its own id. A taken id or code is a `Duplicate`, and the store stays
    /// as it was.
    pub fn restore_pending_registration(&mut self, row: PendingUser) -> (restored: Result<(), DatabaseError>)
        ensures
            final(self)@.wf(),
            match old(self)@.with_restored_pending(row@) {
                Ok(next) => restored is Ok && final(self)@ == next,
                Err(e) => restored == Err::<(), DatabaseError>(e) && final(self)@ == old(self)@,
            },
    {
        proof {
            use_type_invariant(&*self);
        }
        if self.find_pending_registration_by_id(row.id).is_some() || self.find_pending_registration_by_code(
            row.code.as_str(),
        ).is_some() {
            return Err(DatabaseError::Duplicate);
        }
        let last = later_of(self.tables.last_pending_id, row.id);
        proof {
            lemma_rows_view_push(self.tables.pending@, row);
            self@.lemma_with_restored_pending_wf(row@);
        }
        let mut tables = self.take_tables();
        tables.pending.push(row);
        tables.last_pending_id = last;
        proof {
            assert(tables@ =~= old(self)@.with_restored_pending(row@)->Ok_0);
        }
        self.put_tables(tables);
        Ok(())
    }

    /// Puts an employee profile back that was persisted before, under its
    /// own id. A taken id is a `Duplicate`, and the store stays as it was.
    pub fn restore_employee_info(&mut self, row: EmployeeInfoModel) -> (restored: Result<(), DatabaseError>)
        ensures
            final(self)@.wf(),
            match old(self)@.with_restored_employee_info(row@) {
                Ok(next) => restored is Ok && final(self)@ == next,
                Err(e) => restored == Err::<(), DatabaseError>(e) && final(self)@ == old(self)@,
            },
    {
        proof {
            use_type_invariant(&*self);
        }
        if self.find_employee_info_by_id(row.id).is_some() {
            return Err(DatabaseError::Duplicate);
        }
        let last = later_of(self.tables.last_employee_info_id, row.id);
        proof {
            lemma_rows_view_push(self.tables.employee_info@, row);
            self@.lemma_with_restored_employee_info_wf(row@);
        }
        let mut tables = self.take_tables();
        tables.employee_info.push(row);
        tables.last_employee_info_id = last;
        proof {
            assert(tables@ =~= old(self)@.with_restored_employee_info(row@)->Ok_0);
        }
        self.put_tables(tables);
        Ok(())
    }

    /// Puts an employee account back that was persisted before, under its
    /// own id. A taken id or login key is a `Duplicate`, a profile that
    /// does not exist a `Constraint`; on any error the store stays as it
    /// was.
    pub fn restore_employee_login(&mut self, row: EmployeeLogin) -> (restored: Result<(), DatabaseError>)
        ensures
            final(self)@.wf(),
            match old(self)@.with_restored_employee_login(row@) {
                Ok(next) => restored is Ok && final(self)@ == next,
                Err(e) => restored == Err::<(), DatabaseError>(e) && final(self)@ == old(self)@,
            },
    {
        proof {
            use_type_invariant(&*self);
        }
        if self.find_employee_by_id(row.id).is_some() || self.find_employee_by_key(row.username.as_str()).is_some() {
            return Err(DatabaseError::Duplicate);
        }
        if self.find_employee_info_by_id(row.info_id).is_none() {
            return Err(DatabaseError::Constraint);
        }
        let last = later_of(self.tables.last_employee_login_id, row.id);
        proof {
            lemma_rows_view_push(self.tables.employee_logins@, row);
            self@.lemma_with_restored_employee_login_wf(row@);
        }
        let mut tables = self.take_tables();
        tables.employee_logins.push(row);
        tables.last_employee_login_id = last;
        proof {
            assert(tables@ =~= old(self)@.with_restored_employee_login(row@)->Ok_0);
        }
        self.put_tables(tables);
        Ok(())
    }

    /// Puts an employee session back that was persisted before, under its
    /// own id. A taken id or token is a `Duplicate`, an owner that does not
    /// exist a `Constraint`; on any error the store stays as it was.
    pub fn restore_employee_session(&mut self, row: EmployeeSession) -> (restored: Result<(), DatabaseError>)
        ensures
            final(self)@.wf(),
            match old(self)@.with_restored_employee_session(row@) {
                Ok(next) => restored is Ok && final(self)@ == next,
                Err(e) => restored == Err::<(), DatabaseError>(e) && final(self)@ == old(self)@,
            },
    {
        proof {
            use_type_invariant(&*self);
        }
        if self.find_employee_session_by_id(row.id).is_some() || self.find_employee_session_by_token(
            row.token.as_str(),
        ).is_some() {
            return Err(DatabaseError::Duplicate);
        }
        if self.find_employee_by_id(row.e_id).is_none() {
            return Err(DatabaseError::Constraint);
        }
        let last = later_of(self.tables.last_employee_session_id, row.id);
        proof {
            lemma_rows_view_push(self.tables.employee_sessions@, row);
            self@.lemma_with_restored_employee_session_wf(row@);
        }
        let mut tables = self.take_tables();
        tables.employee_sessions.push(row);
        tables.last_employee_session_id = last;
        proof {
            assert(tables@ =~= old(self)@.with_restored_employee_session(row@)->Ok_0);
        }
        self.put_tables(tables);
        Ok(())
    }
}

} // verus!
