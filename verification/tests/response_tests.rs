use futureyou::responses::{ApiError, BAD_REQUEST, INTERNAL_SERVER_ERROR, TOO_MANY_REQUESTS};
use futureyou::validation::{FieldError, ValidationErrors};

fn validation_error() -> ApiError {
    let mut e = ValidationErrors::new();
    e.add("name", FieldError::with_message("length", "Name is required"));
    ApiError::Validation(e)
}

#[test]
fn status_codes() {
    assert_eq!(validation_error().status_code(), BAD_REQUEST);
    assert_eq!(ApiError::TooManyOTPAttempts.status_code(), TOO_MANY_REQUESTS);
    assert_eq!(ApiError::VerificationSessionExpired.status_code(), 400);
    assert_eq!(ApiError::InvalidOtp(3).status_code(), 400);
    for e in [
        ApiError::Redis("r".into()),
        ApiError::Jwt("j".into()),
        ApiError::Mongo("m".into()),
        ApiError::Request("q".into()),
        ApiError::Resend("s".into()),
        ApiError::Serialization("z".into()),
        ApiError::Other("o".into()),
    ] {
        assert_eq!(e.status_code(), INTERNAL_SERVER_ERROR);
    }
}

#[test]
fn messages() {
    assert_eq!(validation_error().message(), "Validation failed: name: Name is required");
    assert_eq!(ApiError::Redis("down".into()).message(), "Redis error: down");
    assert_eq!(ApiError::Jwt("bad".into()).message(), "JWT error: bad");
    assert_eq!(ApiError::Mongo("x".into()).message(), "Database error: x");
    assert_eq!(ApiError::Request("x".into()).message(), "Reqwest error: x");
    assert_eq!(ApiError::Resend("x".into()).message(), "Resend error: x");
    assert_eq!(ApiError::Serialization("x".into()).message(), "Serialization error: x");
    assert_eq!(
        ApiError::VerificationSessionExpired.message(),
        "Verification session expired or wrong email"
    );
    assert_eq!(ApiError::TooManyOTPAttempts.message(), "Too many attempts");
    assert_eq!(ApiError::InvalidOtp(4).message(), "Invalid OTP. 4 tries remaining");
    assert_eq!(ApiError::InvalidOtp(-7).message(), "Invalid OTP. -7 tries remaining");
    assert_eq!(ApiError::Other("boom".into()).message(), "Unexpected error: boom");
}

#[test]
fn bodies() {
    let (status, body) = validation_error().into_response();
    assert_eq!(status, 400);
    assert_eq!(body.status, 400);
    assert_eq!(body.detail, "Validation failed: name: Name is required");
    assert_eq!(body.errors, Some(vec![("name".to_string(), "Name is required".to_string())]));

    let (status, body) = ApiError::InvalidOtp(2).into_response();
    assert_eq!(status, 400);
    assert_eq!(
        body.errors,
        Some(vec![("otp".to_string(), "Invalid OTP 2 tries remaining".to_string())])
    );

    let (status, body) = ApiError::TooManyOTPAttempts.into_response();
    assert_eq!(status, 429);
    assert_eq!(body.status, 429);
    assert_eq!(body.errors, None);

    let body = ApiError::Mongo("gone".into()).body(503);
    assert_eq!(body.status, 503);
    assert_eq!(body.detail, "Database error: gone");
    assert_eq!(body.errors, None);
}

#[test]
fn error_map_names_each_field_once() {
    let mut e = ValidationErrors::new();
    e.add("email", FieldError::with_message("email", "This is not a valid email"));
    e.add("otp", FieldError::with_message("length", "OTP must be 6 digits"));
    e.add("email", FieldError::with_message("length", "too long"));
    let (_, body) = ApiError::Validation(e).into_response();
    assert_eq!(
        body.errors,
        Some(vec![
            ("email".to_string(), "This is not a valid email".to_string()),
            ("otp".to_string(), "OTP must be 6 digits".to_string())
        ])
    );
}
