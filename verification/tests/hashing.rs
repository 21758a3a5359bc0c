use smartauth::credentials::{
    fresh_salt, hash_with_salt, verify_secret, CredentialsHolder, CredentialsPair, IdentityHolder,
};
use smartauth::errors::{CredentialsCreationError, CredentialsVerificationError};
use smartauth::user::User;

fn pair(key: &str, secret: &str) -> CredentialsPair {
    CredentialsPair::new(key.to_string(), secret.to_string())
}

#[test]
fn hash_round_trip() {
    let credentials = pair("CraigAllanRothwell", "SuperSecret123");
    let stored = credentials.create_hash().unwrap();
    assert_eq!(verify_secret(&stored, "SuperSecret123"), Ok(true));
}

#[test]
fn hash_rejects_other_secret() {
    let credentials = pair("CraigAllanRothwell", "SuperSecret123");
    let stored = credentials.create_hash().unwrap();
    assert_eq!(verify_secret(&stored, "wrong"), Ok(false));
    assert_eq!(verify_secret(&stored, "SuperSecret124"), Ok(false));
    assert_eq!(verify_secret(&stored, ""), Ok(false));
}

#[test]
fn hash_is_self_describing() {
    let stored = pair("key", "secret").create_hash().unwrap();
    assert!(stored.starts_with("$argon2id$v=19$"));
    assert_ne!(stored, "secret");
    // salt and raw hash of 128 bytes each, base64 without padding
    let parts: Vec<&str> = stored.split('$').collect();
    assert_eq!(parts.len(), 6);
    assert_eq!(parts[4].len(), 171);
    assert_eq!(parts[5].len(), 171);
}

#[test]
fn two_hashes_of_one_secret_differ_and_both_verify() {
    let credentials = pair("key", "the same secret");
    let first = credentials.create_hash().unwrap();
    let second = credentials.create_hash().unwrap();
    assert_ne!(first, second);
    assert_eq!(verify_secret(&first, "the same secret"), Ok(true));
    assert_eq!(verify_secret(&second, "the same secret"), Ok(true));
}

#[test]
fn empty_secret_round_trips() {
    let stored = pair("key", "").create_hash().unwrap();
    assert_eq!(verify_secret(&stored, ""), Ok(true));
    assert_eq!(verify_secret(&stored, " "), Ok(false));
}

#[test]
fn fresh_salt_has_128_bytes() {
    let first = fresh_salt().unwrap();
    let second = fresh_salt().unwrap();
    assert_eq!(first.len(), 128);
    assert_eq!(second.len(), 128);
    assert_ne!(first, second);
    assert_ne!(first, vec![0u8; 128]);
}

#[test]
fn hash_with_salt_is_a_function_of_secret_and_salt() {
    let salt = vec![7u8; 128];
    let first = hash_with_salt("secret", &salt).unwrap();
    let second = hash_with_salt("secret", &salt).unwrap();
    assert_eq!(first, second);
    let other_salt = hash_with_salt("secret", &vec![8u8; 128]).unwrap();
    assert_ne!(first, other_salt);
    let other_secret = hash_with_salt("secreu", &salt).unwrap();
    assert_ne!(first, other_secret);
    assert_eq!(verify_secret(&first, "secret"), Ok(true));
    assert_eq!(verify_secret(&other_secret, "secret"), Ok(false));
}

#[test]
fn hash_with_known_salt_has_known_prefix() {
    let stored = hash_with_salt("password", &b"somesalt".to_vec()).unwrap();
    assert!(stored.starts_with("$argon2id$v=19$m=19456,t=2,p=1$c29tZXNhbHQ$"));
}

#[test]
fn short_salt_is_a_hash_error() {
    assert_eq!(hash_with_salt("secret", &vec![1u8; 7]), Err(CredentialsCreationError::Hash));
    assert_eq!(hash_with_salt("secret", &vec![]), Err(CredentialsCreationError::Hash));
    assert!(hash_with_salt("secret", &vec![1u8; 8]).is_ok());
}

#[test]
fn malformed_stored_hash_is_an_error_not_a_mismatch() {
    assert_eq!(verify_secret("not a hash", "secret"), Err(CredentialsVerificationError::Verify));
    assert_eq!(verify_secret("", "secret"), Err(CredentialsVerificationError::Verify));
    assert_eq!(
        verify_secret("$argon2id$v=19$m=19456,t=2,p=1$c29tZXNhbHQ", "secret"),
        Err(CredentialsVerificationError::Verify)
    );
}

#[test]
fn known_encoded_hash_verifies() {
    let encoded = "$argon2i$v=19$m=4096,t=3,p=1$c29tZXNhbHQ$iWh06vD8Fy27wf9npn6FXWiCX4K6pW6Ue1Bnzz07Z8A";
    assert_eq!(verify_secret(encoded, "password"), Ok(true));
    assert_eq!(verify_secret(encoded, "Password"), Ok(false));
}

#[test]
fn identity_verifies_credentials() {
    let credentials = pair("alice", "correct horse");
    let user = User { id: 1, username: "alice".to_string(), hash: credentials.create_hash().unwrap() };
    assert_eq!(user.verify(&credentials), Ok(true));
    assert_eq!(user.verify(&pair("alice", "battery staple")), Ok(false));
    assert_eq!(user.get_key(), "alice");
    assert_eq!(user.get_hash(), user.hash);
    assert_eq!(credentials.get_key(), "alice");
    assert_eq!(credentials.get_secret(), "correct horse");
}
