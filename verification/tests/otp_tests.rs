use futureyou::handlers::{begin_otp_check, start_verification, VerifyOTPDetails};
use futureyou::letters::{Letter, State};
use futureyou::otp::{
    generate_otp, on_rate_incremented, on_stored_otp, pending_verification, verification_key,
    OtpStep, OTP_TTL_SECS,
};
use futureyou::responses::ApiError;

#[test]
fn otp_is_six_digits() {
    for _ in 0..50 {
        let otp = generate_otp();
        assert_eq!(otp.len(), 6);
        assert!(otp.chars().all(|c| c.is_ascii_digit()));
        assert_ne!(otp.chars().next(), Some('0'));
    }
}

#[test]
fn keys_and_records() {
    assert_eq!(verification_key("a@b.c"), "pending_verification:a@b.c");
    let p = pending_verification("a@b.c", "123456", "{\"x\":1}");
    assert_eq!(p.key, "pending_verification:a@b.c");
    assert_eq!(
        p.fields,
        vec![
            ("otp".to_string(), "123456".to_string()),
            ("rate".to_string(), "0".to_string()),
            ("letter".to_string(), "{\"x\":1}".to_string())
        ]
    );
    assert_eq!(p.ttl_secs, 3600);
    assert_eq!(OTP_TTL_SECS, 3600);
}

#[test]
fn stored_password_decides() {
    let submitted = "123456".to_string();
    assert_eq!(on_stored_otp(None, &submitted), OtpStep::Reject(ApiError::VerificationSessionExpired));
    assert_eq!(on_stored_otp(Some("123456".into()), &submitted), OtpStep::LoadLetter);
    assert_eq!(on_stored_otp(Some("654321".into()), &submitted), OtpStep::IncrementRate);
}

#[test]
fn wrong_attempts_are_limited() {
    assert_eq!(on_rate_incremented(1), OtpStep::Reject(ApiError::InvalidOtp(4)));
    assert_eq!(on_rate_incremented(4), OtpStep::Reject(ApiError::InvalidOtp(1)));
    assert_eq!(on_rate_incremented(5), OtpStep::DeleteAndReject(ApiError::TooManyOTPAttempts));
    assert_eq!(on_rate_incremented(9), OtpStep::DeleteAndReject(ApiError::TooManyOTPAttempts));
}

#[test]
fn verification_flow_pieces() {
    let letter = Letter {
        id: "id".into(),
        state: State::Pending,
        message: "m".into(),
        due_date: 0,
        created_at: 0,
        writer_name: "Ada".into(),
        writer_email: "ada@example.com".into(),
        email_id: None,
    };
    let start = start_verification(&letter, "{}");
    assert_eq!(start.pending.key, "pending_verification:ada@example.com");
    assert_eq!(start.pending.fields[0], ("otp".to_string(), start.otp.clone()));
    assert_eq!(start.otp.len(), 6);
    assert_eq!(start.pending.ttl_secs, 3600);

    let ok = VerifyOTPDetails { email: "ada@example.com".into(), otp: "123456".into() };
    assert_eq!(begin_otp_check(&ok), Ok("pending_verification:ada@example.com".to_string()));
    let bad = VerifyOTPDetails { email: "ada@example.com".into(), otp: "1234".into() };
    assert!(matches!(begin_otp_check(&bad), Err(ApiError::Validation(_))));
}
