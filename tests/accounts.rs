use device_activity::activity::report_row;
use device_activity::error::{store_error, DatastoreError, StoreFailure};
use device_activity::model::{DeviceId, Rule, User};
use device_activity::ruleset::ruleset_row;
use device_activity::seed::{sample_events, sample_rules};
use device_activity::session::logout;
use device_activity::time::UtcTime;
use device_activity::users::{
    check_password, credential_outcome, first_user, new_user, registration_error,
    registration_record,
};

fn stored(id: i64, username: &str, digest: String) -> User {
    User { id, username: username.to_string(), email: "a@x.com".to_string(), password: digest }
}

#[test]
fn registered_password_verifies_and_wrong_one_does_not() {
    let u = new_user("alice", "a@x.com", "pw").unwrap();
    assert_eq!(u.username, "alice");
    assert_eq!(u.email, "a@x.com");
    assert_ne!(u.password, "pw");
    let user = Some(stored(1, "alice", u.password));
    assert!(check_password(&user, "pw").unwrap());
    assert!(!check_password(&user, "wrong").unwrap());
}

#[test]
fn unknown_user_does_not_verify() {
    assert!(!check_password(&None, "pw").unwrap());
}

#[test]
fn malformed_digest_is_an_error_not_a_mismatch() {
    let user = Some(stored(1, "bob", "not a digest".to_string()));
    assert!(matches!(check_password(&user, "pw"), Err(DatastoreError::CorruptCredential)));
    assert!(matches!(credential_outcome(None), Err(DatastoreError::CorruptCredential)));
    assert!(credential_outcome(Some(true)).unwrap());
    assert!(!credential_outcome(Some(false)).unwrap());
}

#[test]
fn second_registration_of_a_username_conflicts() {
    let e = registration_error("alice", StoreFailure::Constraint("UNIQUE constraint failed: user.username".to_string()));
    match &e {
        DatastoreError::UserAlreadyExists { username } => assert_eq!(username, "alice"),
        other => panic!("expected a conflict, got {:?}", other),
    }
    assert_eq!(e.http_status(), 409);
    assert_eq!(e.message(), "user `alice` already exists");
    assert!(matches!(registration_error("alice", StoreFailure::Other("disk".to_string())), DatastoreError::Rusqlite(_)));
    assert!(matches!(registration_error("alice", StoreFailure::Pool("timeout".to_string())), DatastoreError::R2d2(_)));
    assert!(matches!(store_error(StoreFailure::Constraint("x".to_string())), DatastoreError::Rusqlite(_)));
}

#[test]
fn first_user_or_not_found() {
    assert!(matches!(first_user(Vec::new()), Err(DatastoreError::NotFound)));
    let u = first_user(vec![stored(4, "a", "d".to_string()), stored(5, "b", "e".to_string())]).unwrap();
    assert_eq!(u.id, 4);
    assert_eq!(u.username, "a");
}

#[test]
fn empty_ruleset_is_rejected_and_one_rule_is_usable() {
    match ruleset_row(1, "default", &Vec::new()) {
        Err(DatastoreError::BadRequest(m)) => assert_eq!(m, "a ruleset needs at least one rule"),
        other => panic!("expected a bad request, got {:?}", other),
    }
    let rules = vec![Rule { name: vec!["Work".to_string()], regex: ".*".to_string() }];
    let row = ruleset_row(1, "default", &rules).unwrap();
    assert_eq!(row.user_id, 1);
    assert_eq!(row.name, "default");
    let ruleset_id = 17;
    let hour = UtcTime { secs: 3600 * 400_000, nanos: 0 };
    let events = sample_events(hour);
    assert!(report_row(DeviceId { bits: 1 }, ruleset_id, hour, &events).is_ok());
}

#[test]
fn rules_without_labels_or_pattern_are_rejected() {
    for rule in [
        Rule { name: Vec::new(), regex: ".*".to_string() },
        Rule { name: vec!["Work".to_string()], regex: String::new() },
    ] {
        let rules = vec![Rule { name: vec!["Ok".to_string()], regex: "a".to_string() }, rule];
        match ruleset_row(1, "r", &rules) {
            Err(e @ DatastoreError::BadRequest(_)) => {
                assert_eq!(e.http_status(), 400);
                assert_eq!(e.message(), "bad request: each rule needs a category and a non-empty pattern");
            }
            other => panic!("expected a bad request, got {:?}", other),
        }
    }
}

#[test]
fn sample_data_is_as_described() {
    let rules = sample_rules();
    assert_eq!(rules.len(), 2);
    assert_eq!(rules[0].name, vec!["Work".to_string()]);
    assert_eq!(rules[1].name, vec!["Media".to_string()]);
    assert!(ruleset_row(1, "Ruleset example", &rules).is_ok());
    let hour = UtcTime { secs: 7200, nanos: 0 };
    let events = sample_events(hour);
    assert_eq!(events[0].timestamp, 7200);
    assert_eq!(events[1].timestamp, 7260);
    assert_eq!(events[1].category, "Media");
}

#[test]
fn top_of_hour_rounds_down() {
    assert_eq!(UtcTime { secs: 7265, nanos: 9 }.top_of_hour(), UtcTime { secs: 7200, nanos: 0 });
    assert_eq!(UtcTime { secs: -1, nanos: 0 }.top_of_hour(), UtcTime { secs: -3600, nanos: 0 });
    assert_eq!(UtcTime { secs: 3600, nanos: 0 }.top_of_hour(), UtcTime { secs: 3600, nanos: 0 });
    assert!(UtcTime { secs: -7200, nanos: 0 }.is_on_hour());
}

#[test]
fn logout_clears_both_cookies_and_goes_home() {
    let l = logout();
    assert_eq!(l.cleared_cookies, vec!["user_id".to_string(), "jwt".to_string()]);
    assert_eq!(l.redirect, "/");
}

#[test]
fn error_statuses_and_messages() {
    assert_eq!(DatastoreError::NotFound.http_status(), 404);
    assert_eq!(DatastoreError::Rusqlite("boom".to_string()).http_status(), 500);
    assert_eq!(DatastoreError::Rusqlite("boom".to_string()).message(), "rusqlite error: boom");
    assert_eq!(DatastoreError::Decode { row_id: 3 }.message(), "stored activity could not be decoded");
    assert_eq!(DatastoreError::CorruptCredential.http_status(), 500);
}

#[test]
fn registration_record_keeps_the_digest() {
    let u = registration_record("alice", "a@x.com", Some("$2b$digest".to_string())).unwrap();
    assert_eq!(u.username, "alice");
    assert_eq!(u.email, "a@x.com");
    assert_eq!(u.password, "$2b$digest");
    assert!(matches!(registration_record("alice", "a@x.com", None), Err(DatastoreError::CredentialHashing)));
}
