use vstd::prelude::*;
use rand::Rng;

use crate::responses::ApiError;
use crate::text::{decimal, lemma_decimal_roundtrip, lemma_six_digit_length, u64_to_decimal, all_digits};

verus! {

/// How long a pending verification lives, in seconds.
pub const OTP_TTL_SECS: i64 = 3600;

/// How many wrong passwords a pending verification survives, less one: the
/// fifth wrong one ends it.
pub const MAX_OTP_ATTEMPTS: i32 = 5;

/// Calls `rand::rng().random_range(100_000..1_000_000)`. Claimed, from rand's
/// documentation of `random_range` on a half-open range: the number lies in it.
/// Which number comes back is not stated: it rests on chance.
#[verifier::external_body]
fn random_six_digit_number() -> (n: u64)
    ensures
        100_000 <= n < 1_000_000,
{
    rand::rng().random_range(100_000..1_000_000)
}

/// The key under which an address's pending verification is kept.
pub open spec fn spec_verification_key(email: Seq<char>) -> Seq<char> {
    "pending_verification:"@ + email
}

/// The key under which an address's pending verification is kept.
pub fn verification_key(email: &str) -> (k: String)
    ensures
        k@ == spec_verification_key(email@),
{
    String::from_str("pending_verification:").concat(email)
}

/// A fresh one-time password: six decimal digits, the first not zero.
pub fn generate_otp() -> (otp: String)
    ensures
        otp@.len() == 6,
        all_digits(otp@),
        exists|n: nat| 100_000 <= n < 1_000_000 && otp@ == decimal(n),
{
    let n = random_six_digit_number();
    proof {
        lemma_six_digit_length(n as nat);
        lemma_decimal_roundtrip(n as nat);
    }
    u64_to_decimal(n)
}

/// What is stored for an address that awaits verification: under its key, the
/// password, the count of wrong attempts (zero), and the letter as JSON; it
/// expires after an hour.
#[derive(Debug, PartialEq, Eq)]
pub struct PendingVerification {
    pub key: String,
    pub fields: Vec<(String, String)>,
    pub ttl_secs: i64,
}

/// The plain value of a list of field-value pairs.
pub open spec fn fields_view(v: Vec<(String, String)>) -> Seq<(Seq<char>, Seq<char>)> {
    v@.map_values(|p: (String, String)| (p.0@, p.1@))
}

/// The record that starts the verification of a letter.
pub fn pending_verification(email: &str, otp: &str, letter_json: &str) -> (p: PendingVerification)
    ensures
        p.key@ == spec_verification_key(email@),
        fields_view(p.fields) == seq![("otp"@, otp@), ("rate"@, "0"@), ("letter"@, letter_json@)],
        p.ttl_secs == OTP_TTL_SECS,
{
    let mut fields: Vec<(String, String)> = Vec::new();
    fields.push((String::from_str("otp"), String::from_str(otp)));
    fields.push((String::from_str("rate"), String::from_str("0")));
    fields.push((String::from_str("letter"), String::from_str(letter_json)));
    proof {
        assert(fields_view(fields) =~= seq![("otp"@, otp@), ("rate"@, "0"@), ("letter"@, letter_json@)]);
    }
    PendingVerification { key: verification_key(email), fields, ttl_secs: OTP_TTL_SECS }
}

/// What verifying a password does next.
#[derive(Debug, PartialEq, Eq)]
pub enum OtpStep {
    /// Answer with this failure and keep the pending verification.
    Reject(ApiError),
    /// Count one more wrong attempt, then decide by the new count.
    IncrementRate,
    /// The password is right: read the letter, remove the pending verification.
    LoadLetter,
    /// Remove the pending verification and answer with this failure.
    DeleteAndReject(ApiError),
}

/// The step after reading the stored password (`None`: nothing is pending for
/// the address, or it expired).
pub open spec fn spec_on_stored_otp(stored: Option<Seq<char>>, submitted: Seq<char>) -> OtpStep {
    match stored {
        None => OtpStep::Reject(ApiError::VerificationSessionExpired),
        Some(s) => if s == submitted {
            OtpStep::LoadLetter
        } else {
            OtpStep::IncrementRate
        },
    }
}

/// The step after counting a wrong attempt: from the fifth on the pending
/// verification is removed; before it the answer tells the tries left.
pub open spec fn spec_on_rate_incremented(new_rate: i32) -> OtpStep {
    if new_rate >= MAX_OTP_ATTEMPTS {
        OtpStep::DeleteAndReject(ApiError::TooManyOTPAttempts)
    } else {
        OtpStep::Reject(ApiError::InvalidOtp((MAX_OTP_ATTEMPTS - new_rate) as i32))
    }
}

/// Decides on a submitted password, given the stored one.
pub fn on_stored_otp(stored: Option<String>, submitted: &String) -> (s: OtpStep)
    ensures
        s == spec_on_stored_otp(
            match stored {
                Some(x) => Some(x@),
                None => None,
            },
            submitted@,
        ),
{
    match stored {
        None => OtpStep::Reject(ApiError::VerificationSessionExpired),
        Some(s) => if s == *submitted {
            OtpStep::LoadLetter
        } else {
            OtpStep::IncrementRate
        },
    }
}

/// Decides after a wrong attempt, given the count of wrong attempts so far.
pub fn on_rate_incremented(new_rate: i32) -> (s: OtpStep)
    requires
        new_rate >= MAX_OTP_ATTEMPTS - i32::MAX,
    ensures
        s == spec_on_rate_incremented(new_rate),
{
    if new_rate >= MAX_OTP_ATTEMPTS {
        OtpStep::DeleteAndReject(ApiError::TooManyOTPAttempts)
    } else {
        OtpStep::Reject(ApiError::InvalidOtp(MAX_OTP_ATTEMPTS - new_rate))
    }
}

/// The right password, and only it, releases the letter; with nothing pending
/// the answer is that the session expired.
pub proof fn law_only_the_right_password_releases(stored: Option<Seq<char>>, submitted: Seq<char>)
    ensures
        (spec_on_stored_otp(stored, submitted) is LoadLetter) <==> stored == Some(submitted),
        stored is None ==> spec_on_stored_otp(stored, submitted) == OtpStep::Reject(
            ApiError::VerificationSessionExpired,
        ),
{
}

/// Counting wrong attempts from zero, the k-th wrong password (k = 1 to 4) is
/// answered with 5 - k tries left, at least one, and keeps the verification;
/// the fifth and any later one removes it and answers "too many attempts".
pub proof fn law_wrong_attempts_are_limited(k: i32)
    requires
        k >= 1,
    ensures
        k < MAX_OTP_ATTEMPTS ==> spec_on_rate_incremented(k) == OtpStep::Reject(
            ApiError::InvalidOtp((MAX_OTP_ATTEMPTS - k) as i32),
        ) && 1 <= MAX_OTP_ATTEMPTS - k <= 4,
        k >= MAX_OTP_ATTEMPTS ==> spec_on_rate_incremented(k) == OtpStep::DeleteAndReject(
            ApiError::TooManyOTPAttempts,
        ),
{
}

/// The tries left that successive wrong attempts report strictly decrease.
pub proof fn law_tries_left_decrease(j: i32, k: i32)
    requires
        1 <= j < k < MAX_OTP_ATTEMPTS,
    ensures
        spec_on_rate_incremented(j) matches OtpStep::Reject(ApiError::InvalidOtp(a))
            && spec_on_rate_incremented(k) matches OtpStep::Reject(ApiError::InvalidOtp(b)) && a > b,
{
}

/// A pending verification as the store holds it: the password and the count of
/// wrong attempts. `None`: nothing pending (never started, expired, or removed).
pub type Session = Option<(Seq<char>, int)>;

/// One submission against the store, as the service carries out the steps
/// above (counting a wrong attempt adds one; removing deletes the session): the
/// session afterwards, and `Ok` where the letter is released or the failure.
pub open spec fn spec_attempt(session: Session, submitted: Seq<char>) -> (Session, Result<(), ApiError>) {
    match session {
        None => (None, Err(ApiError::VerificationSessionExpired)),
        Some((otp, rate)) => match spec_on_stored_otp(Some(otp), submitted) {
            OtpStep::LoadLetter => (None, Ok(())),
            _ => {
                let r = rate + 1;
                match spec_on_rate_incremented(r as i32) {
                    OtpStep::DeleteAndReject(e) => (None, Err(e)),
                    OtpStep::Reject(e) => (Some((otp, r)), Err(e)),
                    _ => (session, Err(ApiError::VerificationSessionExpired)),
                }
            },
        },
    }
}

/// Several submissions in turn: the final session and each answer.
pub open spec fn spec_attempts(session: Session, submissions: Seq<Seq<char>>) -> (Session, Seq<Result<(), ApiError>>)
    decreases submissions.len(),
{
    if submissions.len() == 0 {
        (session, Seq::empty())
    } else {
        let (mid, answers) = spec_attempts(session, submissions.drop_last());
        let (last, answer) = spec_attempt(mid, submissions.last());
        (last, answers.push(answer))
    }
}

/// A freshly started verification survives four wrong passwords, each answered
/// with the tries left (4, 3, 2, 1); the fifth wrong one removes it and is
/// answered "too many attempts".
pub proof fn law_fresh_session_allows_four_wrong_passwords(otp: Seq<char>, wrong: Seq<Seq<char>>)
    requires
        wrong.len() <= 5,
        forall|i: int| 0 <= i < wrong.len() ==> #[trigger] wrong[i] != otp,
    ensures
        spec_attempts(Some((otp, 0)), wrong).0 == (if wrong.len() < 5 {
            Some((otp, wrong.len() as int))
        } else {
            None::<(Seq<char>, int)>
        }),
        spec_attempts(Some((otp, 0)), wrong).1.len() == wrong.len(),
        forall|i: int|
            0 <= i < wrong.len() ==> #[trigger] spec_attempts(Some((otp, 0)), wrong).1[i] == (if i < 4 {
                Err::<(), ApiError>(ApiError::InvalidOtp((4 - i) as i32))
            } else {
                Err::<(), ApiError>(ApiError::TooManyOTPAttempts)
            }),
    decreases wrong.len(),
{
    if wrong.len() > 0 {
        let init = wrong.drop_last();
        assert forall|i: int| 0 <= i < init.len() implies #[trigger] init[i] != otp by {
            assert(init[i] == wrong[i]);
        }
        law_fresh_session_allows_four_wrong_passwords(otp, init);
        let k = init.len() as int;
        assert(wrong.last() == wrong[k]);
        let (mid, answers) = spec_attempts(Some((otp, 0)), init);
        assert(mid == Some((otp, k)));
        assert(spec_on_stored_otp(Some(otp), wrong.last()) == OtpStep::IncrementRate);
        assert((k + 1) as i32 == k + 1);
        let all = spec_attempts(Some((otp, 0)), wrong).1;
        assert(all == answers.push(spec_attempt(mid, wrong.last()).1));
        assert forall|i: int| 0 <= i < wrong.len() implies #[trigger] all[i] == (if i < 4 {
            Err::<(), ApiError>(ApiError::InvalidOtp((4 - i) as i32))
        } else {
            Err::<(), ApiError>(ApiError::TooManyOTPAttempts)
        }) by {
            if i < k {
                assert(all[i] == answers[i]);
            }
        }
    }
}

/// The right password releases the letter and ends the verification; once ended,
/// every later submission, the right password too, is answered "session expired".
pub proof fn law_release_ends_session(otp: Seq<char>, rate: int, later: Seq<char>)
    requires
        0 <= rate < 5,
    ensures
        spec_attempt(Some((otp, rate)), otp) == (None::<(Seq<char>, int)>, Ok::<(), ApiError>(())),
        spec_attempt(None, later) == (None::<(Seq<char>, int)>, Err::<(), ApiError>(
            ApiError::VerificationSessionExpired,
        )),
{
}

} // verus!
