use axum_server::errors::AppError;
use axum_server::password::{hash_password, verify_password};

#[test]
fn a_hashed_password_verifies() {
    let h = hash_password("supersecret123").expect("hashed");
    assert!(h.starts_with("$argon2id$"));
    assert_eq!(verify_password("supersecret123", &h), Ok(()));
}

#[test]
fn a_wrong_password_is_invalid_credentials() {
    let h = hash_password("supersecret123").unwrap();
    assert_eq!(verify_password("supersecret124", &h), Err(AppError::InvalidCredentials));
}

#[test]
fn a_malformed_hash_is_an_internal_error() {
    assert_eq!(verify_password("x", "not a phc string"), Err(AppError::InternalServerError));
}

#[test]
fn each_hash_has_its_own_salt() {
    assert_ne!(hash_password("same").unwrap(), hash_password("same").unwrap());
}

#[test]
fn hashes_use_argon2id_with_the_default_parameters() {
    let h = hash_password("supersecret123").unwrap();
    assert!(h.starts_with("$argon2id$v=19$m=19456,t=2,p=1$"), "{h}");
    let rest = &h["$argon2id$v=19$m=19456,t=2,p=1$".len()..];
    let (salt, hash) = rest.split_once('$').expect("salt and hash");
    assert_eq!(salt.len(), 22);
    assert!(!hash.is_empty());
}
