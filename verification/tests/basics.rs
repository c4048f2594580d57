use trace_store::add;
use trace_store::errors::{AnyErr, AnyErr2, ErrorKind};
use trace_store::text::{opt_is, owned, owned_opt, same_text, u64_to_decimal};

#[test]
fn it_works() {
    let result = add(2, 2);
    assert_eq!(result, 4);
}

#[test]
fn add_of_zero() {
    assert_eq!(add(0, 0), 0);
    assert_eq!(add(usize::MAX, 0), usize::MAX);
    assert_eq!(add(1, usize::MAX - 1), usize::MAX);
}

#[test]
fn test_error_propagation() {
    let inner = AnyErr2::new("An error occurred");
    let outer = AnyErr2::new("Wrapper function context");
    let details = format!("{}\n{}", outer.message(), inner.message());
    assert!(details.contains("Wrapper function context"));
    assert!(details.contains("An error occurred"));
}

#[test]
fn any_err_is_shown_by_its_name() {
    assert_eq!(AnyErr.message(), "AnyErr");
    assert_eq!(AnyErr::default().message(), "AnyErr");
}

#[test]
fn any_err2_is_shown_by_its_context() {
    assert_eq!(AnyErr2::new("Failed to parse URL").message(), "Failed to parse URL");
    assert_eq!(AnyErr2::default().message(), "");
}

#[test]
fn each_error_kind_has_its_message() {
    assert_eq!(ErrorKind::ConnectFailed.message(), "could not obtain a session from the store");
    assert_eq!(ErrorKind::Timeout.message(), "Timeout waiting for response");
    assert_eq!(ErrorKind::NoMessage.message(), "No message received");
    assert_eq!(ErrorKind::SerializationError.message(), "record could not be encoded or decoded");
    assert_eq!(ErrorKind::StoreProtocolError.message(), "the store rejected or failed a command");
}

#[test]
fn decimal_numerals() {
    assert_eq!(u64_to_decimal(0), "0");
    assert_eq!(u64_to_decimal(7), "7");
    assert_eq!(u64_to_decimal(10), "10");
    assert_eq!(u64_to_decimal(1234567890), "1234567890");
    assert_eq!(u64_to_decimal(u64::MAX), "18446744073709551615");
    assert_eq!(u64_to_decimal(u64::MAX), u64::MAX.to_string());
}

#[test]
fn text_helpers() {
    assert_eq!(owned("abc"), "abc");
    assert_eq!(owned_opt(&Some("x".to_string())), Some("x".to_string()));
    assert_eq!(owned_opt(&None), None);
    assert!(same_text("abc", "abc"));
    assert!(!same_text("abc", "abd"));
    assert!(!same_text("abc", "ab"));
    assert!(opt_is(&Some("job".to_string()), "job"));
    assert!(!opt_is(&Some("job".to_string()), "jobs"));
    assert!(!opt_is(&None, ""));
}
