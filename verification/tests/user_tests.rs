use rust_users_lib::user::{User, UserDto};
use rust_users_lib::ApplicationError;

#[test]
fn when_new_user_is_created_should_be_standard() {
    let user = User::new("test@test.com", "James", "James!23").unwrap();

    if let User::Standard { user_details } = user {
        assert_eq!(user_details.email_address(), "test@test.com");
        assert_eq!(user_details.name(), "James");
    } else {
        panic!("Expected User::Standard variant");
    }
}

#[test]
fn when_user_is_updated_to_premium_should_be_premium_user() {
    let user = User::new("test@test.com", "James", "James!23").unwrap();

    let premium_user = user.update_to_premium();

    if let User::Premium { user_details, is_premium } = premium_user {
        assert_eq!(user_details.email_address(), "test@test.com");
        assert_eq!(user_details.name(), "James");
        assert!(is_premium);
    } else {
        panic!("Expected User::Standard variant");
    }
}

#[test]
fn when_a_user_is_created_should_be_able_to_update_age() {
    let mut user = User::new("test@test.com", "James", "James!23").unwrap();

    assert_eq!(user.details().age(), None);

    user.update_age(10);

    assert_eq!(user.details().age().unwrap(), 10);
}

#[test]
fn when_a_user_is_created_should_be_able_to_update_name() {
    let mut user = User::new("test@test.com", "James", "James!23").unwrap();

    assert_eq!(user.details().name(), "James");

    user.update_name("John");

    assert_eq!(user.details().name(), "John");
}

#[test]
fn when_user_is_created_with_an_invalid_email_should_return_error() {
    let user = User::new("thisisaninvalidemail", "James", "James!23");

    assert!(user.is_err());
}

#[test]
fn when_user_is_created_with_an_invalid_password_should_return_error() {
    let user = User::new("test@test.com", "James", "james");

    assert!(user.is_err());
}

#[test]
fn when_user_is_created_should_verify_a_matching_password() {
    let user = User::new("test@test.com", "James", "James!23").unwrap();

    assert_ne!(user.password(), "Test!23");

    let is_password_valid = user.verify_password("James!23");

    assert!(is_password_valid.is_ok());
}

#[test]
fn when_user_is_created_should_fail_if_password_does_not_match() {
    let user = User::new("test@test.com", "James", "James!23").unwrap();

    assert_ne!(user.password(), "Test!23");

    let is_password_valid = user.verify_password("This is the wrong password");

    assert!(is_password_valid.is_err());
}

#[test]
fn new_user_never_stores_the_plaintext() {
    let user = User::new("a@b.com", "James", "Testing!23").unwrap();

    assert_eq!(user.email_address(), "a@b.com");
    assert_eq!(user.name(), "James");
    assert_eq!(user.age(), None);
    assert!(!user.is_premium());
    assert_ne!(user.password(), "Testing!23");
    assert!(user.password().starts_with("$argon2id$"));
}

#[test]
fn new_user_reports_the_email_before_the_password() {
    match User::new("not-an-email", "James", "weak") {
        Err(ApplicationError::ApplicationError(detail)) => {
            assert_eq!(detail, "Invalid email address")
        }
        other => panic!("unexpected result {:?}", other.map(|_| ())),
    }
}

#[test]
fn new_user_reports_the_first_broken_password_rule() {
    let cases = vec![
        ("Aa1", "Password must be at least 8 characters long"),
        ("abcdefg1", "Password must contain at least one uppercase letter"),
        ("ABCDEFG1", "Password must contain at least one lowercase letter"),
        ("Abcdefgh", "Password must contain at least one digit"),
        ("12345678", "Password must contain at least one uppercase letter"),
        ("", "Password must be at least 8 characters long"),
    ];
    for (password, message) in cases {
        match User::new("test@test.com", "James", password) {
            Err(ApplicationError::ApplicationError(detail)) => assert_eq!(detail, message),
            other => panic!("unexpected result {:?}", other.map(|_| ())),
        }
    }
}

#[test]
fn from_takes_the_stored_values_as_they_are() {
    let user = User::from("whatever", "", "not-a-hash");

    assert_eq!(user.email_address(), "whatever");
    assert_eq!(user.name(), "");
    assert_eq!(user.password(), "not-a-hash");
    assert_eq!(user.age(), None);
    assert!(matches!(user, User::Standard { .. }));
}

#[test]
fn a_stored_value_that_is_no_hash_fails_to_parse() {
    let user = User::from("test@test.com", "James", "James!23");

    match user.verify_password("James!23") {
        Err(ApplicationError::ApplicationError(detail)) => {
            assert_eq!(detail, "Failed to parse password hash")
        }
        other => panic!("unexpected result {:?}", other),
    }
}

#[test]
fn upgrade_keeps_the_details_and_is_idempotent() {
    let mut user = User::from("test@test.com", "James", "stored");
    user.update_age(41);

    let once = user.clone().update_to_premium();
    let twice = once.clone().update_to_premium();

    for premium in [&once, &twice] {
        assert!(premium.is_premium());
        assert!(matches!(premium, User::Premium { is_premium: true, .. }));
        assert_eq!(premium.email_address(), "test@test.com");
        assert_eq!(premium.name(), "James");
        assert_eq!(premium.age(), Some(41));
        assert_eq!(premium.password(), "stored");
    }
}

#[test]
fn updates_change_one_field_of_either_tier() {
    let mut standard = User::from("test@test.com", "James", "stored");
    let mut premium = standard.clone().update_to_premium();

    standard.update_name("John");
    premium.update_age(-3);

    assert_eq!(standard.name(), "John");
    assert_eq!(standard.age(), None);
    assert_eq!(standard.email_address(), "test@test.com");
    assert_eq!(standard.password(), "stored");
    assert!(!standard.is_premium());

    assert_eq!(premium.name(), "James");
    assert_eq!(premium.age(), Some(-3));
    assert_eq!(premium.email_address(), "test@test.com");
    assert_eq!(premium.password(), "stored");
    assert!(premium.is_premium());
}

#[test]
fn users_are_equal_by_email_address_alone() {
    let standard = User::from("test@test.com", "James", "one");
    let premium = User::from("test@test.com", "John", "two").update_to_premium();
    let other = User::from("other@test.com", "James", "one");

    assert!(standard == premium);
    assert!(premium == standard);
    assert!(standard != other);
}

#[test]
fn default_user_is_standard_and_empty() {
    let user = User::default();

    assert!(matches!(user, User::Standard { .. }));
    assert_eq!(user.email_address(), "");
    assert_eq!(user.name(), "");
    assert_eq!(user.password(), "");
    assert_eq!(user.age(), None);
}

#[test]
fn display_names_the_tier_and_the_email_address() {
    let user = User::from("test@test.com", "James", "stored");

    assert_eq!(user.display(), "Standard User: test@test.com");
    assert_eq!(user.update_to_premium().display(), "Premium User: test@test.com");
}

#[test]
fn public_details_leave_the_password_out() {
    let mut user = User::from("test@test.com", "James", "stored");
    user.update_age(30);

    let standard = UserDto::from(user.clone());
    assert_eq!(standard.email_address, "test@test.com");
    assert_eq!(standard.name, "James");
    assert_eq!(standard.age, Some(30));
    assert!(!standard.is_premium);
    assert!(!format!("{:?}", standard).contains("stored"));

    let premium = UserDto::from(user.update_to_premium());
    assert_eq!(premium.email_address, "test@test.com");
    assert!(premium.is_premium);
}

#[test]
fn a_user_greets_with_its_name_and_tier() {
    let user = User::from("test@test.com", "James", "stored");

    assert_eq!(user.greeting(), "Hello! I'm James. I'm a standard user.");
    assert_eq!(user.update_to_premium().greeting(), "Hello! I'm James. I'm a premium user.");
}

#[test]
fn a_user_tells_its_age_where_it_is_known() {
    let mut user = User::from("test@test.com", "James", "stored");
    assert_eq!(user.age_line(), "I don't know my age.");

    for (age, line) in [
        (32, "I'm 32 years old."),
        (0, "I'm 0 years old."),
        (7, "I'm 7 years old."),
        (-1, "I'm -1 years old."),
        (i32::MAX, "I'm 2147483647 years old."),
        (i32::MIN, "I'm -2147483648 years old."),
    ] {
        user.update_age(age);
        assert_eq!(user.age_line(), line);
    }
}

#[test]
fn new_user_stores_the_email_address_in_lowercase() {
    let user = User::new("Test@Test.com", "James", "James!23").unwrap();

    assert_eq!(user.email_address(), "test@test.com");
    assert_eq!(user.details().email_address(), "test@test.com");
    assert_eq!(user.name(), "James");

    let shouting = User::new("FIRST.LAST+Tag@Sub-Domain.EXAMPLE.ORG", "James", "James!23").unwrap();
    assert_eq!(shouting.email_address(), "first.last+tag@sub-domain.example.org");

    let quiet = User::new("a@b.com", "James", "James!23").unwrap();
    assert_eq!(quiet.email_address(), "a@b.com");
}

#[test]
fn users_registered_under_two_spellings_of_one_address_are_the_same_user() {
    let one = User::new("Test@Test.com", "James", "James!23").unwrap();
    let other = User::new("test@TEST.com", "John", "James!24").unwrap();

    assert!(one == other);
}

#[test]
fn from_keeps_the_capitals_of_a_stored_address() {
    let user = User::from("Test@Test.com", "James", "stored");

    assert_eq!(user.email_address(), "Test@Test.com");
}
