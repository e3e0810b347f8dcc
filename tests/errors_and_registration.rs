use gamemode_x11::errors::Error;
use gamemode_x11::gamemode::{registration_arg, registration_outcome};

#[test]
fn described_error_text_is_parenthesized() {
    assert_eq!(Error::Other("Empty response").message(), "(Empty response)");
}

#[test]
fn resolution_failure_reads_as_its_cause() {
    let e = Error::ResolutionFailure(Box::new(Error::Other("Invalid property format")));
    assert_eq!(e.message(), "(Invalid property format)");
}

#[test]
fn connection_error_text_is_not_empty() {
    let e: Error = x11rb::errors::ConnectionError::UnknownError.into();
    assert!(matches!(e, Error::ConnectionError(_)));
    assert!(!e.message().is_empty());
}

#[test]
fn registration_argument_keeps_the_bits() {
    assert_eq!(registration_arg(0), 0);
    assert_eq!(registration_arg(4242), 4242);
    assert_eq!(registration_arg(2147483647), i32::MAX);
    assert_eq!(registration_arg(2147483648), i32::MIN);
    assert_eq!(registration_arg(u32::MAX), -1);
}

#[test]
fn registration_result_code() {
    assert!(registration_outcome(0).is_ok());
    assert!(matches!(registration_outcome(1), Err(Error::Other("Failed to register pid for gamemode"))));
    assert!(matches!(registration_outcome(-1), Err(Error::Other(_))));
}
