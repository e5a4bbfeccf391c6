use futureyou::handlers::{
    valid_delivery_date, valid_delivery_date_at, FutureLetterDetails, VerifyOTPDetails,
};
use futureyou::time::Timestamp;
use futureyou::validation::{
    is_valid_email, validate_length, validation_errors_to_map, FieldError, ValidationErrors,
};

fn details(name: &str, email: &str, message: &str, date: &str) -> FutureLetterDetails {
    FutureLetterDetails {
        name: name.to_string(),
        email: email.to_string(),
        message: message.to_string(),
        delivery_date: date.to_string(),
    }
}

fn fields(e: &ValidationErrors) -> Vec<String> {
    (0..e.len()).map(|i| e.entry(i).field.clone()).collect()
}

const NOW: Timestamp = Timestamp { secs: 1_704_067_200, nanos: 0 }; // 2024-01-01T00:00:00Z

#[test]
fn parse_reads_rfc3339_and_relaxed_forms() {
    assert_eq!(
        Timestamp::parse("2024-01-01T00:00:00Z"),
        Some(Timestamp { secs: 1_704_067_200, nanos: 0 })
    );
    assert_eq!(
        Timestamp::parse("2012-12-12 12:12:12+00:00"),
        Some(Timestamp { secs: 1_355_314_332, nanos: 0 })
    );
    assert_eq!(
        Timestamp::parse("2024-01-01T01:00:00.5+01:00"),
        Some(Timestamp { secs: 1_704_067_200, nanos: 500_000_000 })
    );
    assert_eq!(Timestamp::parse("tomorrow"), None);
}

#[test]
fn now_is_a_plausible_clock_reading() {
    let t = Timestamp::now();
    assert!(t.secs > 1_700_000_000);
    assert!(t.nanos < 1_000_000_000);
}

#[test]
fn strict_order_and_days() {
    let a = Timestamp { secs: 10, nanos: 5 };
    let b = Timestamp { secs: 10, nanos: 6 };
    assert!(a.before(&b));
    assert!(!b.before(&a));
    assert!(!a.before(&a));
    assert_eq!(a.plus_days(1), Timestamp { secs: 86_410, nanos: 5 });
    assert_eq!(Timestamp { secs: 2, nanos: 345_999_999 }.millis(), 2_345);
}

#[test]
fn delivery_date_rules() {
    let invalid = valid_delivery_date_at("not a date", &NOW).unwrap_err();
    assert_eq!(invalid.code, "Invalid datetime");
    assert_eq!(invalid.message.as_deref(), Some("Delivery date is not a valid datetime"));

    let soon = valid_delivery_date_at("2024-01-01T12:00:00Z", &NOW).unwrap_err();
    assert_eq!(soon.code, "Delivery date too soon");
    assert_eq!(
        soon.message.as_deref(),
        Some("Delivery date must be at least 24 hours into the future")
    );

    // exactly one day later is not too soon; one nanosecond earlier is
    assert_eq!(valid_delivery_date_at("2024-01-02T00:00:00Z", &NOW), Ok(()));
    assert!(valid_delivery_date_at("2024-01-01T23:59:59.999999999Z", &NOW).is_err());
    assert_eq!(valid_delivery_date("2999-01-01T00:00:00Z"), Ok(()));
    assert!(valid_delivery_date("2001-01-01T00:00:00Z").is_err());
}

#[test]
fn email_and_length_rules() {
    assert!(is_valid_email("writer@example.com"));
    assert!(!is_valid_email("writer.example.com"));
    assert!(!is_valid_email(""));
    assert!(validate_length("ab", Some(1), None, None));
    assert!(!validate_length("", Some(1), None, None));
    // characters, not bytes
    assert!(validate_length("ééééé", Some(5), Some(5), None));
    assert!(validate_length("123456", Some(100), Some(0), Some(6)));
    assert!(!validate_length("12345", None, None, Some(6)));
}

#[test]
fn valid_letter_passes() {
    let d = details("Ada", "ada@example.com", "Hello future me", "2024-01-05T00:00:00Z");
    assert_eq!(d.validate_at(&NOW), Ok(()));
}

#[test]
fn every_rule_reports_its_field() {
    let d = details("", "nope", "hey", "yesterday");
    let e = d.validate_at(&NOW).unwrap_err();
    assert_eq!(fields(&e), vec!["name", "email", "message", "delivery_date"]);
    assert_eq!(e.entry(0).errors[0].code, "length");
    assert_eq!(e.entry(0).errors[0].message.as_deref(), Some("Name is required"));
    assert_eq!(e.entry(1).errors[0].message.as_deref(), Some("This is not a valid email"));
    assert_eq!(
        e.entry(2).errors[0].message.as_deref(),
        Some("Message must between 5 and 1000 letters")
    );
    assert_eq!(e.entry(3).errors[0].code, "Invalid datetime");
}

#[test]
fn message_too_long_is_refused() {
    let long = "x".repeat(1001);
    let d = details("Ada", "ada@example.com", &long, "2024-01-05T00:00:00Z");
    let e = d.validate_at(&NOW).unwrap_err();
    assert_eq!(fields(&e), vec!["message"]);
    let exact = "x".repeat(1000);
    let d = details("Ada", "ada@example.com", &exact, "2024-01-05T00:00:00Z");
    assert_eq!(d.validate_at(&NOW), Ok(()));
}

#[test]
fn otp_details_rules() {
    let ok = VerifyOTPDetails { email: "a@b.co".to_string(), otp: "123456".to_string() };
    assert_eq!(ok.validate(), Ok(()));
    let bad = VerifyOTPDetails { email: "a".to_string(), otp: "12345".to_string() };
    let e = bad.validate().unwrap_err();
    assert_eq!(fields(&e), vec!["email", "otp"]);
    assert_eq!(e.entry(1).errors[0].message.as_deref(), Some("OTP must be 6 digits"));
}

#[test]
fn add_groups_errors_by_field() {
    let mut e = ValidationErrors::new();
    assert!(e.is_empty());
    e.add("a", FieldError::with_message("x", "first"));
    e.add("b", FieldError { code: "y".to_string(), message: None });
    e.add("a", FieldError::with_message("z", "second"));
    assert_eq!(e.len(), 2);
    assert_eq!(e.entry(0).errors.len(), 2);
    assert_eq!(e.to_text(), "a: first, second\nb: Validation error: y");
    let map = validation_errors_to_map(&e);
    assert_eq!(
        map,
        vec![
            ("a".to_string(), "first".to_string()),
            ("b".to_string(), "Invalid value for b".to_string())
        ]
    );
}

#[test]
fn instants_before_the_epoch() {
    let t = Timestamp { secs: -2, nanos: 500_000_000 };
    assert_eq!(t.millis(), -1_500);
    assert_eq!(t.plus_days(-1), Timestamp { secs: -86_402, nanos: 500_000_000 });
}
