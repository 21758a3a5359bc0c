//! Citizen accounts and the pending registrations that precede them.

use vstd::prelude::*;
use crate::citizen::IsCitizen;
use crate::credentials::IdentityHolder;
use crate::token::{generate_pending_code, is_pending_code};

verus! {

/// What the store keeps of a citizen account.
pub struct UserView {
    pub id: u64,
    pub username: Seq<char>,
    pub hash: Seq<char>,
}

/// A citizen account: the citizen's registry id, the login key and the
/// stored hash of the secret.
#[derive(Debug)]
pub struct User {
    pub id: u64,
    pub username: String,
    pub hash: String,
}

impl View for User {
    type V = UserView;

    open spec fn view(&self) -> UserView {
        UserView { id: self.id, username: self.username@, hash: self.hash@ }
    }
}

impl Clone for User {
    fn clone(&self) -> (copy: User)
        ensures
            copy@ == self@,
    {
        User { id: self.id, username: self.username.clone(), hash: self.hash.clone() }
    }
}

impl User {
    /// A fresh pending-registration code.
    pub fn generate_pending_code() -> (code: String)
        ensures
            is_pending_code(code@),
    {
        generate_pending_code()
    }
}

impl IdentityHolder for User {
    open spec fn hash(&self) -> Seq<char> {
        self.hash@
    }

    open spec fn key(&self) -> Seq<char> {
        self.username@
    }

    fn get_hash(&self) -> (hash: &str) {
        self.hash.as_str()
    }

    fn get_key(&self) -> (key: &str) {
        self.username.as_str()
    }
}

impl IsCitizen for User {
    open spec fn citizen_id(&self) -> u64 {
        self.id
    }

    fn get_citizen_id(&self) -> (id: u64) {
        self.id
    }
}

/// What the store keeps of a pending registration.
pub struct PendingView {
    pub id: u64,
    pub citizen: i64,
    pub code: Seq<char>,
}

/// A one-time code that links a citizen of the registry to an account that
/// does not exist yet.
#[derive(Debug)]
pub struct PendingUser {
    pub id: u64,
    pub citizen: i64,
    pub code: String,
}

impl View for PendingUser {
    type V = PendingView;

    open spec fn view(&self) -> PendingView {
        PendingView { id: self.id, citizen: self.citizen, code: self.code@ }
    }
}

impl Clone for PendingUser {
    fn clone(&self) -> (copy: PendingUser)
        ensures
            copy@ == self@,
    {
        PendingUser { id: self.id, citizen: self.citizen, code: self.code.clone() }
    }
}

} // verus!
