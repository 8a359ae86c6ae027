use endors::validators::{GreaterThan, InRange, IsNone, Len, MaxLen, MinLen};
use endors::{
    collect_results, validate, validate_with_message, Error, Predicate, PropertyValidator,
    ValidationFailure,
};

#[test]
fn predicate_agrees_with_bare_closure() {
    let is_even = |x: &i32| *x % 2 == 0;
    let checker = Predicate::new(is_even, "must be even".to_string());
    for v in [-3, -2, 0, 1, 4, 7, 100] {
        assert_eq!(checker.is_valid(&v), is_even(&v));
    }
}

#[test]
fn predicate_uses_its_own_message() {
    let checker = Predicate::new(|x: &i32| *x > 0, "must be positive".to_string());
    assert_eq!(checker.message(), "must be positive");
    let result = validate(&-1, &checker, "value");
    let failure = result.unwrap_err();
    assert_eq!(failure.message(), "must be positive");
    assert_eq!(failure.property_path(), "value");
}

#[test]
fn collects_all_failures_in_order() {
    let f1 = ValidationFailure::new("first".to_string(), "a".to_string());
    let f2 = ValidationFailure::new("third".to_string(), "c".to_string());
    let results = vec![Err(f1), Ok(()), Err(f2)];
    let error = collect_results(results).unwrap_err();
    assert_eq!(2, error.failures().len());
    assert_eq!("first", error.failures()[0].message());
    assert_eq!("a", error.failures()[0].property_path());
    assert_eq!("third", error.failures()[1].message());
    assert_eq!("c", error.failures()[1].property_path());
}

#[test]
fn all_passing_checks_yield_success() {
    let results: Vec<Result<(), ValidationFailure>> = vec![Ok(()), Ok(()), Ok(())];
    assert!(collect_results(results).is_ok());
}

#[test]
fn no_checks_yield_success() {
    let results: Vec<Result<(), ValidationFailure>> = vec![];
    assert!(collect_results(results).is_ok());
}

#[test]
fn override_message_used_verbatim() {
    let result = validate_with_message(&11, &InRange { min: 0, max: 10 }, "value.n", "out of bounds");
    let failure = result.unwrap_err();
    assert_eq!("out of bounds", failure.message());
    assert_eq!("value.n", failure.property_path());
}

#[test]
fn validator_message_used_without_override() {
    let result = validate(&11, &InRange { min: 0, max: 10 }, "value.n");
    let failure = result.unwrap_err();
    assert_eq!("Expected value to be in range", failure.message());
    assert_eq!("value.n", failure.property_path());
}

#[test]
fn error_from_single_failure_has_one_entry() {
    let failure = ValidationFailure::new("m".to_string(), "p".to_string());
    let error = Error::from(failure);
    assert_eq!(1, error.failures().len());
    assert_eq!("m", error.failures()[0].message());
    assert_eq!("p", error.failures()[0].property_path());
}

#[test]
fn failure_display_joins_path_and_message() {
    let failure = ValidationFailure::new("too short".to_string(), "user.name".to_string());
    assert_eq!("user.name => too short", failure.display_string());
}

#[test]
fn error_display_round_trip() {
    let f1 = ValidationFailure::new("m1".to_string(), "p1".to_string());
    let f2 = ValidationFailure::new("m2".to_string(), "p2".to_string());
    let line1 = f1.display_string();
    let line2 = f2.display_string();
    let error = Error::new(vec![f1, f2]);
    assert_eq!(error.display_string(), format!("{}\n{}", line1, line2));
}

#[test]
fn empty_error_displays_as_empty_string() {
    let error = Error::new(vec![]);
    assert_eq!(0, error.failures().len());
    assert_eq!("", error.display_string());
}

#[test]
fn min_len_message_carries_the_bound() {
    assert_eq!(
        "Expected value length to be no less than 7",
        MinLen(7).message()
    );
    assert_eq!(
        "Expected value length to be no less than 120",
        MinLen(120).message()
    );
    assert_eq!(
        "Expected value length to be no less than 0",
        MinLen(0).message()
    );
}

#[test]
fn max_len_message_carries_the_bound() {
    assert_eq!(
        "Expected value length to be no more than 305",
        MaxLen(305).message()
    );
}

#[test]
fn max_len_accepts_up_to_bound() {
    assert!(MaxLen(5).is_valid(&"".to_string()));
    assert!(MaxLen(5).is_valid(&"abc".to_string()));
    assert!(MaxLen(5).is_valid(&"abcde".to_string()));
    assert!(!MaxLen(5).is_valid(&"abcdef".to_string()));
}

#[test]
fn error_from_failure_via_std_conversion() {
    let failure = ValidationFailure::new("m".to_string(), "p".to_string());
    let error: Error = failure.into();
    assert_eq!(1, error.failures().len());
    assert_eq!("m", error.failures()[0].message());
}

#[test]
fn len_checks_byte_length() {
    let len = Len { min: 1, max: 3 };
    assert!(!len.is_valid(&"".to_string()));
    assert!(len.is_valid(&"a".to_string()));
    assert!(len.is_valid(&"abc".to_string()));
    assert!(!len.is_valid(&"abcd".to_string()));
}

#[test]
fn min_len_accepts_exact_bound() {
    assert!(MinLen(3).is_valid(&"abc".to_string()));
    assert!(!MinLen(4).is_valid(&"abc".to_string()));
    assert!(MinLen(0).is_valid(&"".to_string()));
}

#[test]
fn is_none_accepts_only_missing_values() {
    assert!(IsNone.is_valid(&None::<u32>));
    assert!(!IsNone.is_valid(&Some(1u32)));
}

#[test]
fn greater_than_is_strict() {
    assert!(GreaterThan(10).is_valid(&11));
    assert!(!GreaterThan(10).is_valid(&10));
    assert!(!GreaterThan(10).is_valid(&9));
}
