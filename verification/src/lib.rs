//! The request-handling rules of a "letter to your future self" service:
//! validation of submitted letters, one-time-password verification,
//! e-mail drafting and scheduling, and the mapping of failures to HTTP answers.
//! The network, the database, the key-value store and the mail service are
//! reached from outside this crate; the clock, the random source and the parsers
//! it relies on are called here behind stated contracts.

mod text;
pub mod time;
pub mod validation;
pub mod handlers;
pub mod responses;
pub mod letters;
pub mod resendkit;
pub mod otp;
pub mod scheduler;
pub mod webhooks;

pub use text::{std_parse_i64, parse_i64, decimal, decimal_value, digit_char, digit_value, signed_decimal, all_digits, u64_to_decimal, i32_to_decimal, lemma_decimal_roundtrip, lemma_decimal_injective, lemma_six_digit_length};
pub use letters::{Letter, ScheduledLetter, State};
pub use resendkit::ResendKit;
pub use responses::{ApiError, ErrorResponse};
pub use webhooks::WebhookSecrets;
