//! The boundary to the Argon2 implementation of the `argon2` crate.

use vstd::prelude::*;

verus! {

/// `argon2::Error`, carried as an opaque value.
#[verifier::external_type_specification]
#[verifier::external_body]
pub struct ExArgon2Error(argon2::Error);

/// The encoded hash that `argon2::hash_encoded` derives, under the crate's
/// default cost parameters, from a secret, a salt and an output length.
pub uninterp spec fn argon2_encoded(secret: Seq<u8>, salt: Seq<u8>, hash_length: u32) -> Seq<char>;

/// What `argon2::verify_encoded` finds for an encoded hash and a candidate
/// secret: `Some(matches)`, or `None` where it reports an error.
pub uninterp spec fn argon2_verdict(encoded: Seq<char>, secret: Seq<u8>) -> Option<bool>;

/// The inputs that `argon2::hash_encoded` accepts under the default cost
/// parameters: a secret of at most 2^32 - 1 bytes, a salt of 8 to 2^32 - 1
/// bytes and an output of at least 4 bytes.
pub open spec fn argon2_accepts(secret: Seq<u8>, salt: Seq<u8>, hash_length: u32) -> bool {
    &&& secret.len() <= u32::MAX
    &&& 8 <= salt.len() <= u32::MAX
    &&& 4 <= hash_length
}

/// Calls `argon2::hash_encoded` with `Config::default()` whose `hash_length`
/// is set to the one given. The contract claims three things of it: it
/// succeeds exactly on the inputs within the length bounds that its context
/// check enforces; its result is a function of the inputs; and the encoded
/// hash it returns verifies against the secret it was derived from, since
/// the encoding carries the salt and every cost parameter.
#[verifier::external_body]
pub(crate) fn hash_encoded(secret: &[u8], salt: &[u8], hash_length: u32) -> (hashed: Result<String, argon2::Error>)
    ensures
        hashed is Ok <==> argon2_accepts(secret@, salt@, hash_length),
        hashed matches Ok(encoded) ==> encoded@ == argon2_encoded(secret@, salt@, hash_length),
        hashed matches Ok(encoded) ==> argon2_verdict(encoded@, secret@) == Some(true),
{
    let mut config = argon2::Config::default();
    config.hash_length = hash_length;
    argon2::hash_encoded(secret, salt, &config)
}

/// Calls `argon2::verify_encoded`. The contract claims that its answer is a
/// function of the encoded hash and the candidate secret.
#[verifier::external_body]
pub(crate) fn verify_encoded(encoded: &str, secret: &[u8]) -> (checked: Result<bool, argon2::Error>)
    ensures
        checked matches Ok(matches) ==> argon2_verdict(encoded@, secret@) == Some(matches),
        checked is Err ==> argon2_verdict(encoded@, secret@) is None,
{
    argon2::verify_encoded(encoded, secret)
}

} // verus!
