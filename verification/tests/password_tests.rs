use cli_app::password::{encrypt_password, validate_password, VerificationError};

#[test]
fn hash_then_verify_succeeds() {
    let credential = encrypt_password("correct horse battery staple").unwrap();
    assert!(validate_password("correct horse battery staple", &credential).is_ok());
}

#[test]
fn hash_twice_gives_distinct_credentials_that_both_verify() {
    let c1 = encrypt_password("swordfish").unwrap();
    let c2 = encrypt_password("swordfish").unwrap();
    assert_ne!(c1, c2);
    assert!(validate_password("swordfish", &c1).is_ok());
    assert!(validate_password("swordfish", &c2).is_ok());
}

#[test]
fn wrong_password_is_a_mismatch() {
    let credential = encrypt_password("right").unwrap();
    assert_eq!(
        validate_password("wrong", &credential),
        Err(VerificationError::Mismatch)
    );
}

#[test]
fn unparsable_credential_is_malformed() {
    assert_eq!(
        validate_password("anything", "not a phc string"),
        Err(VerificationError::MalformedCredential)
    );
}

#[test]
fn credential_is_not_the_plaintext() {
    let credential = encrypt_password("plaintext").unwrap();
    assert_ne!(credential, "plaintext");
    assert!(credential.starts_with('$'));
}
