use backend::response::{ApiError, Envelope, ErrorKind};
use backend::user::{respond_to_lookup, user_not_found_message, User};

fn failure_of(r: &Envelope<User>) -> &ApiError {
    match r {
        Envelope::Failure(e) => e,
        Envelope::Success(_) => panic!("expected a failure"),
    }
}

#[test]
fn existing_user_is_returned() {
    let found = Ok(Some(User { id: 7, username: "User 7".to_string() }));
    let r = respond_to_lookup(7, found);
    assert_eq!(r.status(), 200);
    assert!(r.is_success());
    match r {
        Envelope::Success(u) => {
            assert_eq!(u.id, 7);
            assert_eq!(u.username, "User 7");
        }
        Envelope::Failure(_) => panic!("expected a success"),
    }
}

#[test]
fn missing_user_is_not_found() {
    let r = respond_to_lookup(999, Ok(None));
    assert_eq!(r.status(), 404);
    assert!(!r.is_success());
    let e = failure_of(&r);
    assert_eq!(e.kind(), ErrorKind::NotFound);
    assert_eq!(e.message(), "User 999 not found");
}

#[test]
fn provider_failure_is_generic() {
    let raw = "error returned from database: unable to open database file".to_string();
    let r = respond_to_lookup(7, Err(raw.clone()));
    assert_eq!(r.status(), 500);
    let e = failure_of(&r);
    assert_eq!(e.kind(), ErrorKind::Internal);
    assert_eq!(e.message(), "Could not complete request");
    assert!(!e.message().contains(&raw));
}

#[test]
fn provider_failure_message_ignores_error_text() {
    let a = respond_to_lookup(1, Err("connection refused".to_string()));
    let b = respond_to_lookup(1, Err("disk I/O error".to_string()));
    assert_eq!(failure_of(&a).message(), failure_of(&b).message());
}

#[test]
fn not_found_message_for_zero_and_negative_ids() {
    assert_eq!(user_not_found_message(0), "User 0 not found");
    assert_eq!(user_not_found_message(-42), "User -42 not found");
    assert_eq!(user_not_found_message(1234567890), "User 1234567890 not found");
}

#[test]
fn not_found_message_for_extreme_ids() {
    assert_eq!(user_not_found_message(i64::MAX), "User 9223372036854775807 not found");
    assert_eq!(user_not_found_message(i64::MIN), "User -9223372036854775808 not found");
}

#[test]
fn error_statuses() {
    assert_eq!(ApiError::NotFound("x".to_string()).status(), 404);
    assert_eq!(ApiError::Internal("x".to_string()).status(), 500);
    assert_eq!(ErrorKind::NotFound.status(), 404);
    assert_eq!(ErrorKind::Internal.status(), 500);
}
