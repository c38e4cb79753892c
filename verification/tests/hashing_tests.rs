use argon2::password_hash::{Error, Salt};
use argon2::{Algorithm, Argon2, Params, PasswordHasher, Version};
use rust_users_lib::hashing::{
    hash, hash_with_salt, hashing_result, parsing_result, verification_result, verify,
};
use rust_users_lib::text::{chars_of, decimal_text, lowercase_text};
use rust_users_lib::ApplicationError;

#[test]
fn hashing_twice_gives_two_hashes_that_both_verify() {
    let first = hash("Testing!23").unwrap();
    let second = hash("Testing!23").unwrap();

    assert_ne!(first, second);
    assert_ne!(first, "Testing!23");
    assert!(verify(&first, "Testing!23").is_ok());
    assert!(verify(&second, "Testing!23").is_ok());
}

#[test]
fn a_hash_names_its_algorithm_parameters_and_salt() {
    let made = hash("Testing!23").unwrap();
    let fields: Vec<&str> = made.split('$').collect();

    assert_eq!(fields.len(), 6);
    assert_eq!(fields[0], "");
    assert_eq!(fields[1], "argon2id");
    assert_eq!(fields[2], "v=19");
    assert_eq!(fields[3], "m=19456,t=2,p=1");
    assert_eq!(fields[4].len(), 22);
    assert!(fields[4].chars().all(|c| c.is_ascii_alphanumeric() || c == '+' || c == '/'));
    assert_eq!(fields[5].len(), 43);
}

#[test]
fn a_wrong_password_is_incorrect_and_never_a_parse_failure() {
    let made = hash("Testing!23").unwrap();

    for candidate in ["", "testing!23", "Testing!23 ", "Testing!24", "This is the wrong password"] {
        assert!(matches!(verify(&made, candidate), Err(ApplicationError::IncorrectPassword)));
    }
}

#[test]
fn a_hash_is_verified_with_the_parameters_it_names() {
    let params = Params::new(32, 1, 1, None).unwrap();
    let hasher = Argon2::new(Algorithm::Argon2i, Version::V0x13, params);
    let salt = Salt::from_b64("c29tZXNhbHRzb21lc2FsdA").unwrap();
    let stored = hasher.hash_password("Testing!23".as_bytes(), salt).unwrap().to_string();

    assert!(stored.starts_with("$argon2i$v=19$m=32,t=1,p=1$c29tZXNhbHRzb21lc2FsdA$"));
    assert!(verify(&stored, "Testing!23").is_ok());
    assert!(matches!(verify(&stored, "Testing!24"), Err(ApplicationError::IncorrectPassword)));
}

#[test]
fn a_stored_string_that_does_not_parse_is_an_application_error() {
    for stored in ["", "James!23", "argon2id$v=19", "$", "$argon2id$v=19$m=19456,t=2,p=1$$$$"] {
        match verify(stored, "James!23") {
            Err(ApplicationError::ApplicationError(detail)) => {
                assert_eq!(detail, "Failed to parse password hash")
            }
            other => panic!("unexpected result {:?} for {:?}", other, stored),
        }
    }
}

#[test]
fn a_hash_of_another_algorithm_is_an_incorrect_password() {
    let stored = "$scrypt$ln=15,r=8,p=1$c29tZXNhbHQ$Ek/i0zUT1c0pkFbLJFhmkgEk/i0zUT1c0pkFbLJFhmkg";
    assert!(matches!(verify(stored, "password"), Err(ApplicationError::IncorrectPassword)));
}

#[test]
fn hashing_result_keeps_a_hash_and_reports_everything_else() {
    match hashing_result("Testing!23", Ok("$argon2id$stub".to_string())) {
        Ok(kept) => assert_eq!(kept, "$argon2id$stub"),
        other => panic!("unexpected result {:?}", other),
    }
    match hashing_result("Testing!23", Ok("Testing!23".to_string())) {
        Err(ApplicationError::ApplicationError(detail)) => {
            assert_eq!(detail, "Failed to hash password")
        }
        other => panic!("unexpected result {:?}", other),
    }
    match hashing_result("Testing!23", Err(Error::PhcStringField)) {
        Err(ApplicationError::ApplicationError(detail)) => {
            assert_eq!(detail, "Failed to hash password")
        }
        other => panic!("unexpected result {:?}", other),
    }
}

#[test]
fn parsing_result_reports_a_parse_failure() {
    assert!(parsing_result(Ok(())).is_ok());
    match parsing_result(Err(Error::PhcStringField)) {
        Err(ApplicationError::ApplicationError(detail)) => {
            assert_eq!(detail, "Failed to parse password hash")
        }
        other => panic!("unexpected result {:?}", other),
    }
}

#[test]
fn verification_result_reports_an_incorrect_password() {
    assert!(verification_result(Ok(())).is_ok());
    assert!(matches!(
        verification_result(Err(Error::Password)),
        Err(ApplicationError::IncorrectPassword)
    ));
    assert!(matches!(
        verification_result(Err(Error::Algorithm)),
        Err(ApplicationError::IncorrectPassword)
    ));
}

#[test]
fn chars_of_lists_the_characters_in_order() {
    assert_eq!(chars_of(""), Vec::<char>::new());
    assert_eq!(chars_of("a@b"), vec!['a', '@', 'b']);
    assert_eq!(chars_of("é\u{20ac}x"), vec!['é', '\u{20ac}', 'x']);
}

#[test]
fn decimal_text_agrees_with_the_standard_rendering() {
    for n in [0, 1, 9, 10, 11, 99, 100, 101, 12345, -1, -9, -10, -100, i32::MAX, i32::MIN] {
        assert_eq!(decimal_text(n), n.to_string());
    }
    for n in -1500..1500 {
        assert_eq!(decimal_text(n * 7919), (n * 7919).to_string());
    }
}

#[test]
fn lowercase_text_changes_the_capital_letters_only() {
    assert_eq!(lowercase_text(""), "");
    assert_eq!(lowercase_text("Test@Test.com"), "test@test.com");
    assert_eq!(
        lowercase_text("ABCDEFGHIJKLMNOPQRSTUVWXYZ"),
        "abcdefghijklmnopqrstuvwxyz"
    );
    assert_eq!(lowercase_text("@[`{ 0129_%+-."), "@[`{ 0129_%+-.");
    assert_eq!(lowercase_text("ÉCOLE Ünïcode Δ"), "École Ünïcode Δ");
    for input in ["Hello, World!", "a@b.com", "MiXeD.Case@Example.COM", "\u{20ac}AZ\u{20ac}"] {
        assert_eq!(lowercase_text(input), input.to_ascii_lowercase());
    }
}

#[test]
fn a_hash_is_decided_by_password_and_salt() {
    let salt = "c29tZXNhbHRzb21lc2FsdA";
    let first = hash_with_salt("Testing!23", salt).unwrap();
    let second = hash_with_salt("Testing!23", salt).unwrap();
    let other_salt = hash_with_salt("Testing!23", "b3RoZXJzYWx0b3RoZXJzYQ").unwrap();
    let other_password = hash_with_salt("Testing!24", salt).unwrap();

    assert_eq!(first, second);
    assert_ne!(first, other_salt);
    assert_ne!(first, other_password);
    assert_ne!(first, "Testing!23");
    assert!(first.starts_with("$argon2id$v=19$m=19456,t=2,p=1$c29tZXNhbHRzb21lc2FsdA$"));
    assert!(other_salt.starts_with("$argon2id$v=19$m=19456,t=2,p=1$b3RoZXJzYWx0b3RoZXJzYQ$"));
    assert!(verify(&first, "Testing!23").is_ok());
    assert!(verify(&other_salt, "Testing!23").is_ok());
    assert!(matches!(verify(&first, "Testing!24"), Err(ApplicationError::IncorrectPassword)));
}

#[test]
fn a_salt_that_the_hasher_does_not_take_is_a_hashing_failure() {
    for salt in ["", "abc", "not base64!", "c29tZXNhbHQ_"] {
        match hash_with_salt("Testing!23", salt) {
            Err(ApplicationError::ApplicationError(detail)) => {
                assert_eq!(detail, "Failed to hash password")
            }
            other => panic!("unexpected result {:?} for {:?}", other, salt),
        }
    }
}
