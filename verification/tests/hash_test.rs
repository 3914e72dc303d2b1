use bike_shopping_backend::errors::hash_error::HashError;
use bike_shopping_backend::utils::hash::{
    hash_from_outcome, hash_password, hash_with_salt, verdict, verify_password, PasswordCheck,
};
use bike_shopping_backend::AppErrors;

#[test]
fn test_hash_password_success() {
    let password = "SecurePassword123!";
    let result = hash_password(password);

    assert!(result.is_ok());
    let hash = result.unwrap();
    assert!(!hash.is_empty());
    assert!(hash.starts_with("$argon2"));
}

#[test]
fn test_hash_password_different_salts() {
    let password = "SamePassword";
    let hash1 = hash_password(password).unwrap();
    let hash2 = hash_password(password).unwrap();

    assert_ne!(
        hash1, hash2,
        "Different salts should produce different hashes"
    );
}

#[test]
fn test_hash_password_special_chars_and_unicode() {
    let long_password = "a".repeat(1000);

    let passwords = vec![
        "",
        "!@#$%^&*()",
        "–£–∫—Ä–∞—ó–Ω—Å—å–∫–∞ –º–æ–≤–∞ üîí",
        long_password.as_str(),
    ];

    for password in passwords {
        let result = hash_password(password);
        assert!(result.is_ok(), "Should handle: {}", password);
    }
}

#[test]
fn test_verify_password_correct() {
    let password = "CorrectPassword123";
    let hash = hash_password(password).unwrap();

    let result = verify_password(password, &hash);

    assert!(result.is_ok());
    assert_eq!(result.unwrap(), true);
}

#[test]
fn test_verify_password_incorrect() {
    let password = "CorrectPassword";
    let hash = hash_password(password).unwrap();

    assert_eq!(verify_password("WrongPassword", &hash).unwrap(), false);
    assert_eq!(verify_password("correctpassword", &hash).unwrap(), false);
    assert_eq!(verify_password("", &hash).unwrap(), false);
}

#[test]
fn test_verify_password_special_chars_and_unicode() {
    let passwords = vec!["Test!@#$%^&*()", "–¢–µ—Å—Ç–æ–≤–∏–π üîí", ""];

    for password in passwords {
        let hash = hash_password(password).unwrap();
        assert_eq!(
            verify_password(password, &hash).unwrap(),
            true,
            "Should verify: {}",
            password
        );
    }
}

#[test]
fn test_verify_password_invalid_hash() {
    let result = verify_password("password", "not_a_valid_hash");

    assert!(result.is_err());
    assert!(matches!(
        result.unwrap_err(),
        AppErrors::Hash(HashError::FailedParse(_))
    ));
}

#[test]
fn test_verify_password_corrupted_hash() {
    let password = "TestPassword";
    let hash = hash_password(password).unwrap();
    let mut corrupted = hash.clone();
    corrupted.replace_range(10..11, "X");

    let result = verify_password(password, &corrupted);

    assert!(
        result.is_err() || result.unwrap() == false,
        "Corrupted hash should fail"
    );
}

#[test]
fn test_verify_password_empty_hash_is_an_error() {
    let result = verify_password("password", "");

    assert!(matches!(
        result.unwrap_err(),
        AppErrors::Hash(HashError::FailedParse(_))
    ));
}

#[test]
fn test_verify_password_unknown_algorithm_is_a_verification_error() {
    // A hash string that parses, of an algorithm that the hasher does not know.
    let result = verify_password("password", "$unknown$c2FsdHNhbHRzYWx0$aGFzaGhhc2hoYXNo");

    assert!(matches!(
        result.unwrap_err(),
        AppErrors::Hash(HashError::VerificationError(_))
    ));
}

#[test]
fn test_verify_password_hash_without_output_is_a_mismatch() {
    // A hash string with a salt and no output: nothing can match it.
    let result = verify_password("password", "$argon2id$v=19$m=19456,t=2,p=1$c2FsdHNhbHRzYWx0");

    assert_eq!(result.unwrap(), false);
}

#[test]
fn test_hash_error_messages() {
    assert_eq!(HashError::FailedHash.message(), "Failed to hash password");
    let error = verify_password("password", "not_a_valid_hash").unwrap_err();
    match error {
        AppErrors::Hash(cause) => {
            assert!(cause.message().starts_with("Failed to parse password hash: "));
            assert!(cause.message().len() > "Failed to parse password hash: ".len());
        }
        other => panic!("unexpected error: {:?}", other),
    }
}

#[test]
fn test_hash_with_salt_depends_on_password_and_salt_alone() {
    let hash = hash_with_salt("SamePassword", "c2FsdHNhbHRzYWx0").unwrap();

    assert_eq!(hash_with_salt("SamePassword", "c2FsdHNhbHRzYWx0").unwrap(), hash);
    assert_ne!(hash_with_salt("SamePassword", "b3RoZXJzYWx0c2FsdA").unwrap(), hash);
    assert_ne!(hash_with_salt("OtherPassword", "c2FsdHNhbHRzYWx0").unwrap(), hash);
    assert!(hash.starts_with("$argon2id$v=19$m=19456,t=2,p=1$c2FsdHNhbHRzYWx0$"));
    assert_eq!(verify_password("SamePassword", &hash).unwrap(), true);
    assert_eq!(verify_password("OtherPassword", &hash).unwrap(), false);
}

#[test]
fn test_hash_with_a_text_that_is_no_salt() {
    for salt in ["", "abc", "not a salt!", "c2Fs dHNhbHRzYWx0"] {
        let failed = hash_with_salt("password", salt);
        assert!(
            matches!(failed.unwrap_err(), AppErrors::Hash(HashError::FailedHash)),
            "{:?}",
            salt
        );
    }
}

#[test]
fn test_hash_from_outcome_and_verdict() {
    assert_eq!(hash_from_outcome(Ok("h".to_string())).unwrap(), "h");
    let cause = argon2::password_hash::Error::Crypto;
    assert!(matches!(
        hash_from_outcome(Err(cause)).unwrap_err(),
        AppErrors::Hash(HashError::FailedHash)
    ));

    assert_eq!(verdict(PasswordCheck::Match).unwrap(), true);
    assert_eq!(verdict(PasswordCheck::Mismatch).unwrap(), false);
    assert!(matches!(
        verdict(PasswordCheck::Failed(cause)).unwrap_err(),
        AppErrors::Hash(HashError::VerificationError(_))
    ));
}
