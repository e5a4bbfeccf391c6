use vstd::prelude::*;

use crate::text::{i32_to_decimal, signed_decimal};
use crate::validation::{distinct_keys, errors_text, first_messages, validation_errors_to_map, ValidationErrors};

verus! {

/// Why a request failed. The variants for outside services carry the text
/// that the service's error prints (its `Display`).
#[derive(Debug, PartialEq, Eq)]
pub enum ApiError {
    Validation(ValidationErrors),
    Redis(String),
    Jwt(String),
    Mongo(String),
    Request(String),
    Resend(String),
    Serialization(String),
    VerificationSessionExpired,
    TooManyOTPAttempts,
    InvalidOtp(i32),
    Other(String),
}

/// What a failed request answers: the HTTP status, a readable detail, and,
/// for some failures, a message per offending field.
#[derive(Debug, PartialEq, Eq)]
pub struct ErrorResponse {
    pub status: u16,
    pub detail: String,
    pub errors: Option<Vec<(String, String)>>,
}

/// HTTP 400 Bad Request.
pub const BAD_REQUEST: u16 = 400;
/// HTTP 429 Too Many Requests.
pub const TOO_MANY_REQUESTS: u16 = 429;
/// HTTP 500 Internal Server Error.
pub const INTERNAL_SERVER_ERROR: u16 = 500;

/// The plain value of a field-to-message list.
pub open spec fn pairs_view(v: Vec<(String, String)>) -> Seq<(Seq<char>, Seq<char>)> {
    v@.map_values(|p: (String, String)| (p.0@, p.1@))
}

impl ApiError {
    /// The status of each failure: invalid input, an expired session and a wrong
    /// password are the client's (400), too many attempts is 429, the rest is 500.
    pub open spec fn spec_status_code(&self) -> u16 {
        match self {
            ApiError::Validation(_) => BAD_REQUEST,
            ApiError::TooManyOTPAttempts => TOO_MANY_REQUESTS,
            ApiError::VerificationSessionExpired | ApiError::InvalidOtp(_) => BAD_REQUEST,
            _ => INTERNAL_SERVER_ERROR,
        }
    }

    /// The text of each failure, as the error prints.
    pub open spec fn spec_message(&self) -> Seq<char> {
        match self {
            ApiError::Validation(e) => "Validation failed: "@ + errors_text(e@),
            ApiError::Redis(m) => "Redis error: "@ + m@,
            ApiError::Jwt(m) => "JWT error: "@ + m@,
            ApiError::Mongo(m) => "Database error: "@ + m@,
            ApiError::Request(m) => "Reqwest error: "@ + m@,
            ApiError::Resend(m) => "Resend error: "@ + m@,
            ApiError::Serialization(m) => "Serialization error: "@ + m@,
            ApiError::VerificationSessionExpired => "Verification session expired or wrong email"@,
            ApiError::TooManyOTPAttempts => "Too many attempts"@,
            ApiError::InvalidOtp(n) => "Invalid OTP. "@ + signed_decimal(*n as int) + " tries remaining"@,
            ApiError::Other(m) => "Unexpected error: "@ + m@,
        }
    }

    /// The per-field messages of each failure: those of the validation, or for
    /// a wrong password the remaining tries under "otp"; none for the rest.
    pub open spec fn spec_field_messages(&self) -> Option<Seq<(Seq<char>, Seq<char>)>> {
        match self {
            ApiError::Validation(e) => Some(first_messages(e@)),
            ApiError::InvalidOtp(n) => Some(
                seq![("otp"@, "Invalid OTP "@ + signed_decimal(*n as int) + " tries remaining"@)],
            ),
            _ => None,
        }
    }

    /// The HTTP status of this failure.
    pub fn status_code(&self) -> (s: u16)
        ensures
            s == self.spec_status_code(),
    {
        match self {
            ApiError::Validation(_) => BAD_REQUEST,
            ApiError::TooManyOTPAttempts => TOO_MANY_REQUESTS,
            ApiError::VerificationSessionExpired | ApiError::InvalidOtp(_) => BAD_REQUEST,
            _ => INTERNAL_SERVER_ERROR,
        }
    }

    /// The text of this failure, as its `Display` prints it.
    pub fn message(&self) -> (s: String)
        ensures
            s@ == self.spec_message(),
    {
        match self {
            ApiError::Validation(e) => {
                let s = String::from_str("Validation failed: ");
                s.concat(e.to_text().as_str())
            },
            ApiError::Redis(m) => String::from_str("Redis error: ").concat(m.as_str()),
            ApiError::Jwt(m) => String::from_str("JWT error: ").concat(m.as_str()),
            ApiError::Mongo(m) => String::from_str("Database error: ").concat(m.as_str()),
            ApiError::Request(m) => String::from_str("Reqwest error: ").concat(m.as_str()),
            ApiError::Resend(m) => String::from_str("Resend error: ").concat(m.as_str()),
            ApiError::Serialization(m) => String::from_str("Serialization error: ").concat(
                m.as_str(),
            ),
            ApiError::VerificationSessionExpired => String::from_str(
                "Verification session expired or wrong email",
            ),
            ApiError::TooManyOTPAttempts => String::from_str("Too many attempts"),
            ApiError::InvalidOtp(n) => {
                let s = String::from_str("Invalid OTP. ").concat(i32_to_decimal(*n).as_str());
                s.concat(" tries remaining")
            },
            ApiError::Other(m) => String::from_str("Unexpected error: ").concat(m.as_str()),
        }
    }

    /// The response body for this failure under status `status`.
    pub fn body(&self, status: u16) -> (r: ErrorResponse)
        ensures
            r.status == status,
            r.detail@ == self.spec_message(),
            match r.errors {
                Some(v) => self.spec_field_messages() == Some(pairs_view(v)) && distinct_keys(pairs_view(v)),
                None => self.spec_field_messages() is None,
            },
    {
        let mut errors: Option<Vec<(String, String)>> = None;
        if let ApiError::Validation(e) = self {
            errors = Some(validation_errors_to_map(e));
        }
        if let ApiError::InvalidOtp(remaining) = self {
            let mut map: Vec<(String, String)> = Vec::new();
            let text = String::from_str("Invalid OTP ").concat(i32_to_decimal(*remaining).as_str());
            let text = text.concat(" tries remaining");
            map.push((String::from_str("otp"), text));
            proof {
                assert(pairs_view(map) =~= self.spec_field_messages()->0);
            }
            errors = Some(map);
        }
        ErrorResponse { status, detail: self.message(), errors }
    }

    /// The status and body with which a request fails.
    pub fn into_response(&self) -> (r: (u16, ErrorResponse))
        ensures
            r.0 == self.spec_status_code(),
            r.1.status == r.0,
            r.1.detail@ == self.spec_message(),
            match r.1.errors {
                Some(v) => self.spec_field_messages() == Some(pairs_view(v)) && distinct_keys(pairs_view(v)),
                None => self.spec_field_messages() is None,
            },
    {
        let status = self.status_code();
        let body = self.body(status);
        (status, body)
    }
}

/// A failed request's answer is the client's fault (4xx) exactly for invalid
/// input, an expired or unknown verification session, a wrong password and too
/// many attempts; every other failure is a server error (500).
pub proof fn law_client_errors_are_4xx(e: ApiError)
    ensures
        (400 <= e.spec_status_code() < 500) <==> (e is Validation || e is VerificationSessionExpired
            || e is InvalidOtp || e is TooManyOTPAttempts),
        !(400 <= e.spec_status_code() < 500) ==> e.spec_status_code() == INTERNAL_SERVER_ERROR,
{
}

} // verus!
