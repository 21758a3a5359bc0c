//! Credentials as presented by a caller, identities as stored, and the
//! hashing that connects the two.

use vstd::prelude::*;
use vstd::utf8::encode_utf8;
use crate::errors::{CredentialsCreationError, CredentialsVerificationError};
use crate::model::viewed_result;
use crate::hasher::{argon2_accepts, argon2_encoded, argon2_verdict, hash_encoded, verify_encoded};
use crate::rng::{thread_rng, try_fill_bytes};

verus! {

/// Length in bytes of the random salt of every stored hash.
pub const SALT_LENGTH: usize = 128;

/// Length in bytes of the raw hash inside every stored hash.
pub const HASH_LENGTH: u32 = 128;

/// What `verify_secret` answers for a stored hash and a candidate secret.
pub open spec fn verification(stored_hash: Seq<char>, secret: Seq<char>) -> Result<bool, CredentialsVerificationError> {
    match argon2_verdict(stored_hash, encode_utf8(secret)) {
        Some(matches) => Ok(matches),
        None => Err(CredentialsVerificationError::Verify),
    }
}

/// The stored hash of `secret` under `salt`, where the hash function accepts
/// the two.
pub open spec fn salted_hash(secret: Seq<char>, salt: Seq<u8>) -> Result<Seq<char>, CredentialsCreationError> {
    if argon2_accepts(encode_utf8(secret), salt, HASH_LENGTH) {
        Ok(argon2_encoded(encode_utf8(secret), salt, HASH_LENGTH))
    } else {
        Err(CredentialsCreationError::Hash)
    }
}

/// `hashed` is a possible outcome of hashing `secret` under a fresh random
/// salt: a stored hash made with some salt of `SALT_LENGTH` bytes, which
/// verifies against the secret; or `RNG`, which may always strike; or
/// `Hash`, which only a secret too long for the hash function meets, and
/// which such a secret cannot escape.
pub open spec fn may_hash_to(secret: Seq<char>, hashed: Result<Seq<char>, CredentialsCreationError>) -> bool {
    match hashed {
        Ok(stored) => {
            &&& exists|salt: Seq<u8>|
                salt.len() == SALT_LENGTH && #[trigger] salted_hash(secret, salt) == Ok::<
                    Seq<char>,
                    CredentialsCreationError,
                >(stored)
            &&& verification(stored, secret) == Ok::<bool, CredentialsVerificationError>(true)
        },
        Err(CredentialsCreationError::RNG) => true,
        Err(CredentialsCreationError::Hash) => encode_utf8(secret).len() > u32::MAX,
    }
}

/// A fresh salt of `SALT_LENGTH` bytes from the thread-local generator, or
/// `RNG` where the generator fails.
pub fn fresh_salt() -> (salt: Result<Vec<u8>, CredentialsCreationError>)
    ensures
        salt matches Ok(bytes) ==> bytes@.len() == SALT_LENGTH,
        salt matches Err(e) ==> e == CredentialsCreationError::RNG,
{
    let mut rng = thread_rng();
    let mut salt: Vec<u8> = Vec::new();
    let mut i: usize = 0;
    while i < SALT_LENGTH
        invariant
            i <= SALT_LENGTH,
            salt@.len() == i,
        decreases SALT_LENGTH - i,
    {
        salt.push(0u8);
        i = i + 1;
    }
    match try_fill_bytes(&mut rng, &mut salt) {
        Ok(()) => Ok(salt),
        Err(_) => Err(CredentialsCreationError::RNG),
    }
}

/// Hashes `secret` under the given salt into one self-describing string.
pub fn hash_with_salt(secret: &str, salt: &Vec<u8>) -> (hashed: Result<String, CredentialsCreationError>)
    ensures
        viewed_result(hashed) == salted_hash(secret@, salt@),
        hashed matches Ok(stored) ==> verification(stored@, secret@) == Ok::<bool, CredentialsVerificationError>(true),
{
    match hash_encoded(secret.as_bytes(), salt.as_slice(), HASH_LENGTH) {
        Ok(stored) => Ok(stored),
        Err(_) => Err(CredentialsCreationError::Hash),
    }
}

/// Checks a candidate secret against a stored hash. A malformed stored hash
/// is an error, never a mismatch.
pub fn verify_secret(stored_hash: &str, secret: &str) -> (checked: Result<bool, CredentialsVerificationError>)
    ensures
        checked == verification(stored_hash@, secret@),
{
    match verify_encoded(stored_hash, secret.as_bytes()) {
        Ok(matches) => Ok(matches),
        Err(_) => Err(CredentialsVerificationError::Verify),
    }
}

/// Something that presents a login key and a secret.
pub trait CredentialsHolder {
    /// The secret presented.
    spec fn secret(&self) -> Seq<char>;

    /// The login key presented.
    spec fn key(&self) -> Seq<char>;

    fn get_secret(&self) -> (secret: &str)
        ensures
            secret@ == self.secret(),
    ;

    fn get_key(&self) -> (key: &str)
        ensures
            key@ == self.key(),
    ;

    /// Hashes the secret under a fresh random salt. The stored hash that
    /// comes back verifies against the secret it was made from. A secret
    /// too long for the hash function never yields a hash.
    fn create_hash(&self) -> (hashed: Result<String, CredentialsCreationError>)
        ensures
            may_hash_to(self.secret(), viewed_result(hashed)),
            hashed matches Ok(stored) ==> verification(stored@, self.secret())
                == Ok::<bool, CredentialsVerificationError>(true),
    {
        match fresh_salt() {
            Ok(salt) => hash_with_salt(self.get_secret(), &salt),
            Err(e) => Err(e),
        }
    }
}

/// A login key with the secret presented for it.
#[derive(Debug, Clone)]
pub struct CredentialsPair {
    username: String,
    password: String,
}

impl CredentialsPair {
    /// The credentials that present `password` for the login key `username`.
    pub fn new(username: String, password: String) -> (pair: CredentialsPair)
        ensures
            pair.key() == username@,
            pair.secret() == password@,
    {
        CredentialsPair { username, password }
    }
}

impl CredentialsHolder for CredentialsPair {
    closed spec fn secret(&self) -> Seq<char> {
        self.password@
    }

    closed spec fn key(&self) -> Seq<char> {
        self.username@
    }

    fn get_secret(&self) -> (secret: &str) {
        self.password.as_str()
    }

    fn get_key(&self) -> (key: &str) {
        self.username.as_str()
    }
}

/// Something that holds a login key and the stored hash of its secret.
pub trait IdentityHolder {
    /// The stored hash.
    spec fn hash(&self) -> Seq<char>;

    /// The login key.
    spec fn key(&self) -> Seq<char>;

    fn get_hash(&self) -> (hash: &str)
        ensures
            hash@ == self.hash(),
    ;

    fn get_key(&self) -> (key: &str)
        ensures
            key@ == self.key(),
    ;

    /// Whether the secret that `other` presents is the one this identity's
    /// hash was made from.
    fn verify<C: CredentialsHolder>(&self, other: &C) -> (checked: Result<bool, CredentialsVerificationError>)
        ensures
            checked == verification(self.hash(), other.secret()),
    {
        verify_secret(self.get_hash(), other.get_secret())
    }
}

} // verus!
