use jni::errors::{Error, JniError};
use jni::objects::{JObject, JString};
use native_greeting::entry::{greeting_outcome, GreetingError};
use native_greeting::text::greeting;

#[test]
fn greeting_is_the_literal() {
    assert_eq!(greeting(), "Rust!");
}

#[test]
fn greeting_matches_byte_for_byte() {
    assert_eq!(greeting().as_bytes(), [0x52u8, 0x75, 0x73, 0x74, 0x21]);
    assert_eq!(greeting().len(), 5);
    assert!(greeting().is_ascii());
}

#[test]
fn greeting_is_not_empty() {
    assert!(!greeting().is_empty());
    assert_eq!(greeting().chars().next(), Some('R'));
    assert_eq!(greeting().chars().last(), Some('!'));
}

#[test]
fn greeting_is_the_same_a_thousand_times() {
    let mut seen: Vec<&'static str> = Vec::new();
    for _ in 0..1000 {
        seen.push(greeting());
    }
    assert_eq!(seen.len(), 1000);
    assert!(seen.iter().all(|text| *text == "Rust!"));
}

#[test]
fn a_missing_string_is_an_allocation_failure() {
    let outcome = greeting_outcome(Err(Error::NullPtr("NewStringUTF result")));
    assert!(matches!(outcome, Err(GreetingError::AllocationFailure)));
}

#[test]
fn a_pending_exception_is_an_allocation_failure() {
    let outcome = greeting_outcome(Err(Error::JavaException));
    assert!(matches!(outcome, Err(GreetingError::AllocationFailure)));
}

#[test]
fn every_host_error_is_an_allocation_failure() {
    let errors = vec![
        Error::JNIEnvMethodNotFound("NewStringUTF"),
        Error::NullDeref("JNIEnv"),
        Error::NullDeref("*JNIEnv"),
        Error::JniCall(JniError::NoMemory),
        Error::JniCall(JniError::Unknown),
        Error::TryLock,
    ];
    for error in errors {
        match greeting_outcome(Err(error)) {
            Ok(_) => panic!("a failure of the host was handed back as a string"),
            Err(kind) => assert_eq!(kind, GreetingError::AllocationFailure),
        }
    }
}

#[test]
fn a_made_string_is_handed_back_untouched() {
    let made = JString::from(JObject::null());
    let before = made.as_raw();
    match greeting_outcome(Ok(made)) {
        Ok(string) => assert_eq!(string.as_raw(), before),
        Err(_) => panic!("a string of the host was turned into a failure"),
    }
}

#[test]
fn the_error_kind_can_be_copied_and_compared() {
    let kind = GreetingError::AllocationFailure;
    let copy = kind;
    assert_eq!(kind, copy);
    assert_eq!(format!("{:?}", kind), "AllocationFailure");
}
