use weather_core::error::Error;
use weather_core::validate::validate_days;

#[test]
fn test_validate_days_valid() {
    assert!(validate_days(1).is_ok());
    assert!(validate_days(3).is_ok());
    assert!(validate_days(5).is_ok());
}

#[test]
fn test_validate_days_invalid() {
    let result = validate_days(0);
    assert!(result.is_err());
    if let Err(Error::InvalidArgument { arg, message }) = result {
        assert_eq!(arg, "0");
        assert_eq!(message, "Days should be between 1 and 5.");
    } else {
        panic!("Expected InvalidArgument error");
    }

    let result = validate_days(6);
    assert!(result.is_err());
    if let Err(Error::InvalidArgument { arg, message }) = result {
        assert_eq!(arg, "6");
        assert_eq!(message, "Days should be between 1 and 5.");
    } else {
        panic!("Expected InvalidArgument error");
    }
}

#[test]
fn validate_days_accepts_exactly_one_to_five() {
    for d in -3..=9 {
        let accepted = validate_days(d).is_ok();
        assert_eq!(accepted, (1..=5).contains(&d), "day count {}", d);
    }
}

#[test]
fn validate_days_carries_the_decimal_text_of_extreme_values() {
    match validate_days(i32::MIN) {
        Err(Error::InvalidArgument { arg, .. }) => assert_eq!(arg, "-2147483648"),
        other => panic!("unexpected {:?}", other),
    }
    match validate_days(i32::MAX) {
        Err(Error::InvalidArgument { arg, .. }) => assert_eq!(arg, "2147483647"),
        other => panic!("unexpected {:?}", other),
    }
    match validate_days(-7) {
        Err(Error::InvalidArgument { arg, .. }) => assert_eq!(arg, "-7"),
        other => panic!("unexpected {:?}", other),
    }
}
