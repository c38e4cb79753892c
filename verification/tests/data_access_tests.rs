use rust_users_lib::data_access::{lookup_result, store_result};
use rust_users_lib::{
    ApplicationError, DataAccess, InMemoryDataAccess, InsertOutcome, User, UserRecord,
};

#[test]
fn an_empty_store_finds_nobody() {
    let store = InMemoryDataAccess::new();

    assert_eq!(store.len(), 0);
    assert!(matches!(
        store.with_email_address("a@b.com"),
        Err(ApplicationError::UserDoesNotExist)
    ));
}

#[test]
fn a_stored_user_is_found_by_its_email_address() {
    let mut store = InMemoryDataAccess::new();
    let user = User::from("a@b.com", "James", "stored-hash");

    assert!(store.store(user).is_ok());

    let found = store.with_email_address("a@b.com").unwrap();
    assert_eq!(found.email_address(), "a@b.com");
    assert_eq!(found.name(), "James");
    assert_eq!(found.password(), "stored-hash");
    assert_eq!(store.len(), 1);
    assert!(matches!(
        store.with_email_address("A@b.com"),
        Err(ApplicationError::UserDoesNotExist)
    ));
}

#[test]
fn a_lookup_hands_out_a_copy() {
    let mut store = InMemoryDataAccess::new();
    store.store(User::from("a@b.com", "James", "stored-hash")).unwrap();

    let mut found = store.with_email_address("a@b.com").unwrap();
    found.update_name("John");

    assert_eq!(store.with_email_address("a@b.com").unwrap().name(), "James");
}

#[test]
fn a_second_user_with_the_same_email_address_is_kept_behind_the_first() {
    let mut store = InMemoryDataAccess::new();
    store.store(User::from("a@b.com", "First", "one")).unwrap();
    store.store(User::from("a@b.com", "Second", "two")).unwrap();

    assert_eq!(store.len(), 2);
    assert_eq!(store.with_email_address("a@b.com").unwrap().name(), "First");
}

#[test]
fn many_users_with_distinct_email_addresses_are_all_found() {
    let mut store = InMemoryDataAccess::new();
    for i in 0..200 {
        let email = format!("user{}@test.com", i);
        let name = format!("User {}", i);
        assert!(store.store(User::from(&email, &name, "stored-hash")).is_ok());
    }

    assert_eq!(store.len(), 200);
    for i in (0..200).rev() {
        let email = format!("user{}@test.com", i);
        let found = store.with_email_address(&email).unwrap();
        assert_eq!(found.email_address(), email);
        assert_eq!(found.name(), format!("User {}", i));
    }
}

#[test]
fn a_premium_user_stays_premium_in_the_store() {
    let mut store = InMemoryDataAccess::new();
    let mut user = User::from("a@b.com", "James", "stored-hash").update_to_premium();
    user.update_age(33);
    store.store(user).unwrap();

    let found = store.with_email_address("a@b.com").unwrap();
    assert!(found.is_premium());
    assert_eq!(found.age(), Some(33));
}

#[test]
fn a_row_becomes_a_standard_user() {
    let record = UserRecord {
        email_address: "a@b.com".to_string(),
        name: "James".to_string(),
        password: "stored-hash".to_string(),
    };

    let user = lookup_result(Ok(Some(record))).unwrap();

    assert!(matches!(user, User::Standard { .. }));
    assert_eq!(user.email_address(), "a@b.com");
    assert_eq!(user.name(), "James");
    assert_eq!(user.password(), "stored-hash");
    assert_eq!(user.age(), None);
}

#[test]
fn no_row_and_a_failed_select_are_both_a_missing_user() {
    assert!(matches!(lookup_result(Ok(None)), Err(ApplicationError::UserDoesNotExist)));
    assert!(matches!(
        lookup_result(Err("connection refused".to_string())),
        Err(ApplicationError::UserDoesNotExist)
    ));
}

#[test]
fn the_end_of_an_insert_decides_the_result_of_a_store() {
    assert!(store_result(InsertOutcome::Inserted).is_ok());
    assert!(matches!(
        store_result(InsertOutcome::DuplicateKey),
        Err(ApplicationError::UserAlreadyExists)
    ));
    match store_result(InsertOutcome::Failed("connection refused".to_string())) {
        Err(ApplicationError::DatabaseError(detail)) => assert_eq!(detail, "connection refused"),
        other => panic!("unexpected result {:?}", other),
    }
}

#[test]
fn a_record_holds_what_is_persisted_of_a_user() {
    let mut user = User::from("a@b.com", "James", "stored-hash").update_to_premium();
    user.update_age(33);

    let record = UserRecord::of(&user);

    assert_eq!(record.email_address, "a@b.com");
    assert_eq!(record.name, "James");
    assert_eq!(record.password, "stored-hash");
}
