//! Employee profiles, employee accounts and their sessions.

use vstd::prelude::*;
use crate::credentials::IdentityHolder;
use crate::session::{Session, SessionView, Timestamp};

verus! {

/// What the store keeps of an employee profile.
pub struct EmployeeInfoView {
    pub id: u64,
    pub firstname: Seq<char>,
    pub lastname: Seq<char>,
}

/// A persisted employee profile.
#[derive(Debug)]
pub struct EmployeeInfoModel {
    pub id: u64,
    pub firstname: String,
    pub lastname: String,
}

impl View for EmployeeInfoModel {
    type V = EmployeeInfoView;

    open spec fn view(&self) -> EmployeeInfoView {
        EmployeeInfoView { id: self.id, firstname: self.firstname@, lastname: self.lastname@ }
    }
}

impl Clone for EmployeeInfoModel {
    fn clone(&self) -> (copy: EmployeeInfoModel)
        ensures
            copy@ == self@,
    {
        EmployeeInfoModel { id: self.id, firstname: self.firstname.clone(), lastname: self.lastname.clone() }
    }
}

/// An employee profile that is not persisted yet.
#[derive(Debug)]
pub struct NewEmployeeInfo {
    pub firstname: String,
    pub lastname: String,
}

impl Clone for NewEmployeeInfo {
    fn clone(&self) -> (copy: NewEmployeeInfo)
        ensures
            copy.firstname@ == self.firstname@,
            copy.lastname@ == self.lastname@,
    {
        NewEmployeeInfo { firstname: self.firstname.clone(), lastname: self.lastname.clone() }
    }
}

/// What the store keeps of an employee account.
pub struct EmployeeLoginView {
    pub id: u64,
    pub info_id: u64,
    pub username: Seq<char>,
    pub hash: Seq<char>,
}

/// A persisted employee account, which refers to the employee's profile.
#[derive(Debug)]
pub struct EmployeeLogin {
    pub id: u64,
    pub info_id: u64,
    pub username: String,
    pub hash: String,
}

impl View for EmployeeLogin {
    type V = EmployeeLoginView;

    open spec fn view(&self) -> EmployeeLoginView {
        EmployeeLoginView { id: self.id, info_id: self.info_id, username: self.username@, hash: self.hash@ }
    }
}

impl Clone for EmployeeLogin {
    fn clone(&self) -> (copy: EmployeeLogin)
        ensures
            copy@ == self@,
    {
        EmployeeLogin {
            id: self.id,
            info_id: self.info_id,
            username: self.username.clone(),
            hash: self.hash.clone(),
        }
    }
}

impl IdentityHolder for EmployeeLogin {
    open spec fn hash(&self) -> Seq<char> {
        self.hash@
    }

    open spec fn key(&self) -> Seq<char> {
        self.username@
    }

    fn get_hash(&self) -> (hash: &str) {
        self.hash.as_str()
    }

    fn get_key(&self) -> (key: &str) {
        self.username.as_str()
    }
}

/// An employee account that is not persisted yet.
#[derive(Debug)]
pub struct NewEmployeeLogin {
    pub info_id: u64,
    pub username: String,
    pub hash: String,
}

/// A persisted session of an employee account.
#[derive(Debug)]
pub struct EmployeeSession {
    pub id: u64,
    pub e_id: u64,
    pub token: String,
    pub expires: Timestamp,
}

impl View for EmployeeSession {
    type V = SessionView;

    open spec fn view(&self) -> SessionView {
        SessionView { id: self.id, owner: self.e_id, token: self.token@, expires: self.expires }
    }
}

impl Clone for EmployeeSession {
    fn clone(&self) -> (copy: EmployeeSession)
        ensures
            copy@ == self@,
    {
        EmployeeSession { id: self.id, e_id: self.e_id, token: self.token.clone(), expires: self.expires }
    }
}

impl Session for EmployeeSession {
    open spec fn expiry(&self) -> Timestamp {
        self.expires
    }

    open spec fn bearer(&self) -> Seq<char> {
        self.token@
    }

    fn expires(&self) -> (expires: &Timestamp) {
        &self.expires
    }

    fn token(&self) -> (token: &String) {
        &self.token
    }
}

/// An employee session that is not persisted yet.
#[derive(Debug)]
pub struct NewEmployeeSession {
    pub e_id: u64,
    pub token: String,
    pub expires: Timestamp,
}

} // verus!
