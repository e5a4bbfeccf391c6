use vstd::prelude::*;

use crate::time::{chrono_parse_utc, Timestamp};
use crate::letters::{bson_rfc3339_millis, is_v7_uuid_text, Letter};
use crate::otp::{OTP_TTL_SECS, generate_otp, pending_verification, spec_verification_key, verification_key, fields_view, PendingVerification};
use crate::responses::ApiError;
use crate::text::{all_digits, decimal};
use crate::validation::{
    validate_length, is_valid_email, length_within, validator_accepts_email, with_error,
    FieldError, ValidationErrors,
};

verus! {

/// A letter as submitted: the writer's name and address, the message, and when
/// it is to be delivered (a date and time in text).
#[derive(Debug, PartialEq, Eq)]
pub struct FutureLetterDetails {
    pub name: String,
    pub email: String,
    pub message: String,
    pub delivery_date: String,
}

/// A submitted one-time password for an address.
#[derive(Debug, PartialEq, Eq)]
pub struct VerifyOTPDetails {
    pub email: String,
    pub otp: String,
}

/// The body of the mail service's delivery and bounce notifications.
#[derive(Debug, PartialEq, Eq)]
pub struct ResendWebhookPayload {
    pub data: EmailDeliveryData,
}

/// The mail that a notification is about.
#[derive(Debug, PartialEq, Eq)]
pub struct EmailDeliveryData {
    pub email_id: String,
}

/// A field error's plain value.
pub type ErrorValue = (Seq<char>, Option<Seq<char>>);

/// The error on a delivery date that does not parse.
pub open spec fn invalid_datetime_error() -> ErrorValue {
    ("Invalid datetime"@, Some("Delivery date is not a valid datetime"@))
}

/// The error on a delivery date less than a day ahead.
pub open spec fn too_soon_error() -> ErrorValue {
    ("Delivery date too soon"@, Some("Delivery date must be at least 24 hours into the future"@))
}

/// The delivery-date rule at instant `now`: the text must parse as a date and
/// time, and that instant must not be earlier than `now` plus one day.
pub open spec fn delivery_date_error(s: Seq<char>, now: Timestamp) -> Option<ErrorValue> {
    match chrono_parse_utc(s) {
        None => Some(invalid_datetime_error()),
        Some(p) => if (Timestamp { secs: p.0, nanos: p.1 }).spec_before(now.spec_plus_days(1)) {
            Some(too_soon_error())
        } else {
            None
        },
    }
}

/// Checks a delivery date at instant `now`.
pub fn valid_delivery_date_at(delivery_date: &str, now: &Timestamp) -> (r: Result<(), FieldError>)
    requires
        now.is_clock_reading(),
    ensures
        match r {
            Ok(()) => delivery_date_error(delivery_date@, *now) is None,
            Err(e) => delivery_date_error(delivery_date@, *now) == Some(e@),
        },
{
    let parsed = match Timestamp::parse(delivery_date) {
        Some(t) => t,
        None => {
            return Err(
                FieldError::with_message("Invalid datetime", "Delivery date is not a valid datetime"),
            );
        },
    };
    let offset = now.plus_days(1);
    if parsed.before(&offset) {
        return Err(
            FieldError::with_message(
                "Delivery date too soon",
                "Delivery date must be at least 24 hours into the future",
            ),
        );
    }
    Ok(())
}

/// Checks a delivery date against the current time.
pub fn valid_delivery_date(delivery_date: &str) -> (r: Result<(), FieldError>)
    ensures
        exists|now: Timestamp|
            now.is_clock_reading() && match r {
                Ok(()) => delivery_date_error(delivery_date@, now) is None,
                Err(e) => delivery_date_error(delivery_date@, now) == Some(e@),
            },
{
    let now = Timestamp::now();
    valid_delivery_date_at(delivery_date, &now)
}

/// The errors of a submitted letter at instant `now`, field by field in the
/// order of the fields: a name of at least one character, an e-mail address,
/// a message of 5 to 1000 characters, and a delivery date at least a day ahead.
pub open spec fn letter_details_errors(
    name: Seq<char>,
    email: Seq<char>,
    message: Seq<char>,
    delivery_date: Seq<char>,
    now: Timestamp,
) -> Seq<(Seq<char>, Seq<ErrorValue>)> {
    let e0 = Seq::<(Seq<char>, Seq<ErrorValue>)>::empty();
    let e1 = if length_within(name, Some(1), None, None) {
        e0
    } else {
        e0.push(("name"@, seq![("length"@, Some("Name is required"@))]))
    };
    let e2 = if validator_accepts_email(email) {
        e1
    } else {
        e1.push(("email"@, seq![("email"@, Some("This is not a valid email"@))]))
    };
    let e3 = if length_within(message, Some(5), Some(1000), None) {
        e2
    } else {
        e2.push(("message"@, seq![("length"@, Some("Message must between 5 and 1000 letters"@))]))
    };
    match delivery_date_error(delivery_date, now) {
        None => e3,
        Some(err) => e3.push(("delivery_date"@, seq![err])),
    }
}

/// The errors of a submitted one-time password: an e-mail address, and a
/// password of exactly six characters.
pub open spec fn otp_details_errors(email: Seq<char>, otp: Seq<char>) -> Seq<(Seq<char>, Seq<ErrorValue>)> {
    let e0 = Seq::<(Seq<char>, Seq<ErrorValue>)>::empty();
    let e1 = if validator_accepts_email(email) {
        e0
    } else {
        e0.push(("email"@, seq![("email"@, Some("This is not a valid email"@))]))
    };
    if length_within(otp, None, None, Some(6)) {
        e1
    } else {
        e1.push(("otp"@, seq![("length"@, Some("OTP must be 6 digits"@))]))
    }
}

/// The result a validation gives for a list of errors: success exactly when there are none.
pub open spec fn validation_result(
    r: Result<(), ValidationErrors>,
    expected: Seq<(Seq<char>, Seq<ErrorValue>)>,
) -> bool {
    match r {
        Ok(()) => expected.len() == 0,
        Err(e) => expected.len() > 0 && e@ == expected,
    }
}

/// A field absent from the entries is added at their end.
proof fn lemma_add_new_field(entries: Seq<(Seq<char>, Seq<ErrorValue>)>, field: Seq<char>, err: ErrorValue)
    requires
        forall|i: int| 0 <= i < entries.len() ==> #[trigger] entries[i].0 != field,
    ensures
        with_error(entries, field, err) == entries.push((field, seq![err])),
{
}

fn finish(errors: ValidationErrors) -> (r: Result<(), ValidationErrors>)
    ensures
        validation_result(r, errors@),
{
    if errors.is_empty() {
        Ok(())
    } else {
        Err(errors)
    }
}

impl FutureLetterDetails {
    /// Validates the letter's fields at instant `now`.
    pub fn validate_at(&self, now: &Timestamp) -> (r: Result<(), ValidationErrors>)
        requires
            now.is_clock_reading(),
        ensures
            validation_result(
                r,
                letter_details_errors(self.name@, self.email@, self.message@, self.delivery_date@, *now),
            ),
    {
        proof {
            reveal_strlit("name");
            reveal_strlit("email");
            reveal_strlit("message");
            reveal_strlit("delivery_date");
        }
        let ghost spec = letter_details_errors(
            self.name@, self.email@, self.message@, self.delivery_date@, *now);
        let ghost e0 = Seq::<(Seq<char>, Seq<ErrorValue>)>::empty();
        let ghost e1 = if length_within(self.name@, Some(1), None, None) { e0 } else {
            e0.push(("name"@, seq![("length"@, Some("Name is required"@))]))
        };
        let ghost e2 = if validator_accepts_email(self.email@) { e1 } else {
            e1.push(("email"@, seq![("email"@, Some("This is not a valid email"@))]))
        };
        let ghost e3 = if length_within(self.message@, Some(5), Some(1000), None) { e2 } else {
            e2.push(("message"@, seq![("length"@, Some("Message must between 5 and 1000 letters"@))]))
        };
        assert("name"@.len() == 4 && "email"@.len() == 5 && "message"@.len() == 7);
        assert("delivery_date"@.len() == 13);
        assert("name"@ != "email"@ && "name"@ != "message"@ && "email"@ != "message"@);
        assert("name"@ != "delivery_date"@ && "email"@ != "delivery_date"@ && "message"@ != "delivery_date"@);
        let mut errors = ValidationErrors::new();
        if !validate_length(self.name.as_str(), Some(1), None, None) {
            proof { lemma_add_new_field(errors@, "name"@, ("length"@, Some("Name is required"@))); }
            errors.add("name", FieldError::with_message("length", "Name is required"));
        }
        assert(errors@ =~= e1);
        if !is_valid_email(self.email.as_str()) {
            proof { lemma_add_new_field(errors@, "email"@, ("email"@, Some("This is not a valid email"@))); }
            errors.add("email", FieldError::with_message("email", "This is not a valid email"));
        }
        assert(errors@ =~= e2);
        if !validate_length(self.message.as_str(), Some(5), Some(1000), None) {
            proof {
                lemma_add_new_field(errors@, "message"@,
                    ("length"@, Some("Message must between 5 and 1000 letters"@)));
            }
            errors.add(
                "message",
                FieldError::with_message("length", "Message must between 5 and 1000 letters"),
            );
        }
        assert(errors@ =~= e3);
        match valid_delivery_date_at(self.delivery_date.as_str(), now) {
            Ok(()) => {},
            Err(e) => {
                proof { lemma_add_new_field(errors@, "delivery_date"@, e@); }
                errors.add("delivery_date", e);
            },
        }
        assert(errors@ =~= spec);
        finish(errors)
    }

    /// Validates the letter's fields against the current time.
    pub fn validate(&self) -> (r: Result<(), ValidationErrors>)
        ensures
            exists|now: Timestamp|
                now.is_clock_reading() && validation_result(
                    r,
                    letter_details_errors(self.name@, self.email@, self.message@, self.delivery_date@, now),
                ),
    {
        let now = Timestamp::now();
        self.validate_at(&now)
    }
}

impl VerifyOTPDetails {
    /// Validates the address and the password's length.
    pub fn validate(&self) -> (r: Result<(), ValidationErrors>)
        ensures
            validation_result(r, otp_details_errors(self.email@, self.otp@)),
    {
        proof {
            reveal_strlit("email");
            reveal_strlit("otp");
        }
        let ghost spec = otp_details_errors(self.email@, self.otp@);
        let ghost e1 = if validator_accepts_email(self.email@) {
            Seq::<(Seq<char>, Seq<ErrorValue>)>::empty()
        } else {
            seq![("email"@, seq![("email"@, Some("This is not a valid email"@))])]
        };
        assert("email"@.len() == 5 && "otp"@.len() == 3);
        assert("email"@ != "otp"@);
        let mut errors = ValidationErrors::new();
        if !is_valid_email(self.email.as_str()) {
            proof { lemma_add_new_field(errors@, "email"@, ("email"@, Some("This is not a valid email"@))); }
            errors.add("email", FieldError::with_message("email", "This is not a valid email"));
        }
        assert(errors@ =~= e1);
        if !validate_length(self.otp.as_str(), None, None, Some(6)) {
            proof { lemma_add_new_field(errors@, "otp"@, ("length"@, Some("OTP must be 6 digits"@))); }
            errors.add("otp", FieldError::with_message("length", "OTP must be 6 digits"));
        }
        assert(errors@ =~= spec);
        finish(errors)
    }
}

/// The first half of submitting a letter, at instant `now`: the details are
/// validated, then the letter is made. `Err` carries the validation errors;
/// `Ok(None)` is a delivery date that passed validation but does not read as
/// RFC 3339 (there the service panics).
pub open spec fn spec_prepared_letter(
    details: FutureLetterDetails,
    now: Timestamp,
    r: Result<Option<Letter>, ApiError>,
) -> bool {
    let expected = letter_details_errors(
        details.name@, details.email@, details.message@, details.delivery_date@, now);
    match r {
        Err(e) => expected.len() > 0 && (e matches ApiError::Validation(v) && v@ == expected),
        Ok(o) => expected.len() == 0 && match bson_rfc3339_millis(details.delivery_date@) {
            None => o is None,
            Some(due) => o matches Some(letter) && is_v7_uuid_text(letter.id@) && Letter::spec_from_parts(
                details,
                letter.id,
                due,
                letter.created_at,
                letter,
            ),
        },
    }
}

/// Validates a submitted letter against the current time and makes the letter.
pub fn prepare_future_letter(details: FutureLetterDetails) -> (r: Result<Option<Letter>, ApiError>)
    ensures
        exists|now: Timestamp| now.is_clock_reading() && spec_prepared_letter(details, now, r),
{
    let now = Timestamp::now();
    match details.validate_at(&now) {
        Err(e) => Err(ApiError::Validation(e)),
        Ok(()) => Ok(Letter::from_submission(details)),
    }
}

/// What starts the verification of a letter: the pending record to store and the
/// password to mail to its writer.
pub struct VerificationStart {
    pub pending: PendingVerification,
    pub otp: String,
}

/// Starts the verification of a letter, given the letter as JSON: a fresh
/// six-digit password, kept with the letter under the writer's address.
pub fn start_verification(letter: &Letter, letter_json: &str) -> (v: VerificationStart)
    ensures
        v.otp@.len() == 6,
        all_digits(v.otp@),
        exists|n: nat| 100_000 <= n < 1_000_000 && v.otp@ == decimal(n),
        v.pending.key@ == spec_verification_key(letter.writer_email@),
        fields_view(v.pending.fields) == seq![("otp"@, v.otp@), ("rate"@, "0"@), ("letter"@, letter_json@)],
        v.pending.ttl_secs == OTP_TTL_SECS,
{
    let otp = generate_otp();
    let pending = pending_verification(letter.writer_email.as_str(), otp.as_str(), letter_json);
    VerificationStart { pending, otp }
}

/// The first step of verifying a password: the details are validated, and the
/// key of the pending verification is found.
pub fn begin_otp_check(details: &VerifyOTPDetails) -> (r: Result<String, ApiError>)
    ensures
        match r {
            Ok(k) => otp_details_errors(details.email@, details.otp@).len() == 0 && k@
                == spec_verification_key(details.email@),
            Err(e) => otp_details_errors(details.email@, details.otp@).len() > 0
                && (e matches ApiError::Validation(v) && v@ == otp_details_errors(details.email@, details.otp@)),
        },
{
    match details.validate() {
        Err(e) => Err(ApiError::Validation(e)),
        Ok(()) => Ok(verification_key(details.email.as_str())),
    }
}

/// A letter that passes validation at instant `now` has a name, a valid address,
/// a message of 5 to 1000 characters, and a delivery instant no earlier than a day
/// after `now`; one that fails is refused with at least one field error.
pub proof fn law_valid_letters_are_due_a_day_later(
    name: Seq<char>,
    email: Seq<char>,
    message: Seq<char>,
    delivery_date: Seq<char>,
    now: Timestamp,
)
    requires
        letter_details_errors(name, email, message, delivery_date, now).len() == 0,
    ensures
        name.len() >= 1,
        validator_accepts_email(email),
        5 <= message.len() <= 1000,
        chrono_parse_utc(delivery_date) matches Some(p) && !(Timestamp { secs: p.0, nanos: p.1 }).spec_before(
            now.spec_plus_days(1),
        ),
{
}

/// Whether a delivery date, as chrono reads it, lies at least one day (86,400
/// seconds) after `now`, counted to the nanosecond.
pub open spec fn at_least_a_day_after(delivery_date: Seq<char>, now: Timestamp) -> bool {
    match chrono_parse_utc(delivery_date) {
        Some(p) => p.0 > now.secs + 86_400 || (p.0 == now.secs + 86_400 && p.1 >= now.nanos),
        None => false,
    }
}

/// Whether some entry of the errors names the field.
pub open spec fn names_field(errors: Seq<(Seq<char>, Seq<ErrorValue>)>, field: Seq<char>) -> bool {
    exists|i: int| 0 <= i < errors.len() && (#[trigger] errors[i]).0 == field
}

/// A submitted letter is accepted exactly when its name has a character, its
/// address is accepted, its message has 5 to 1000 characters and its delivery
/// date reads as an instant at least a day after `now`. The delivery date is
/// named among the errors exactly when it fails its rule; a date that reads but
/// falls less than a day ahead is refused as too soon, with that message.
pub proof fn law_letter_validation_is_exact(
    name: Seq<char>,
    email: Seq<char>,
    message: Seq<char>,
    delivery_date: Seq<char>,
    now: Timestamp,
)
    requires
        now.is_clock_reading(),
    ensures
        (letter_details_errors(name, email, message, delivery_date, now).len() == 0) <==> (name.len() >= 1
            && validator_accepts_email(email) && 5 <= message.len() <= 1000 && at_least_a_day_after(
            delivery_date,
            now,
        )),
        names_field(letter_details_errors(name, email, message, delivery_date, now), "delivery_date"@)
            <==> !at_least_a_day_after(delivery_date, now),
        (chrono_parse_utc(delivery_date) is Some && !at_least_a_day_after(delivery_date, now)) ==> letter_details_errors(
            name,
            email,
            message,
            delivery_date,
            now,
        ).last() == ("delivery_date"@, seq![
            ("Delivery date too soon"@, Some("Delivery date must be at least 24 hours into the future"@)),
        ]),
{
    reveal_strlit("name");
    reveal_strlit("email");
    reveal_strlit("message");
    reveal_strlit("delivery_date");
    let errs = letter_details_errors(name, email, message, delivery_date, now);
    let dd = "delivery_date"@;
    assert("name"@.len() == 4 && "email"@.len() == 5 && "message"@.len() == 7 && dd.len() == 13);
    assert("name"@ != dd && "email"@ != dd && "message"@ != dd);
    if at_least_a_day_after(delivery_date, now) {
        assert(delivery_date_error(delivery_date, now) is None);
        if names_field(errs, dd) {
            let i = choose|i: int| 0 <= i < errs.len() && (#[trigger] errs[i]).0 == dd;
            assert(errs[i].0 == "name"@ || errs[i].0 == "email"@ || errs[i].0 == "message"@);
        }
    } else {
        assert(delivery_date_error(delivery_date, now) is Some);
        assert(errs.last().0 == dd);
        assert(errs[errs.len() - 1].0 == dd);
    }
}

/// A password submission passes validation exactly when its address is accepted
/// and its password has exactly six characters; any other length is refused
/// under "otp" with the message "OTP must be 6 digits".
pub proof fn law_otp_validation_is_exact(email: Seq<char>, otp: Seq<char>)
    ensures
        (otp_details_errors(email, otp).len() == 0) <==> (otp.len() == 6 && validator_accepts_email(email)),
        otp.len() != 6 ==> otp_details_errors(email, otp).last() == ("otp"@, seq![
            ("length"@, Some("OTP must be 6 digits"@)),
        ]),
        otp.len() == 6 ==> !names_field(otp_details_errors(email, otp), "otp"@),
{
    reveal_strlit("email");
    reveal_strlit("otp");
    let errs = otp_details_errors(email, otp);
    assert("email"@.len() == 5 && "otp"@.len() == 3);
    if otp.len() == 6 && names_field(errs, "otp"@) {
        let i = choose|i: int| 0 <= i < errs.len() && (#[trigger] errs[i]).0 == "otp"@;
        assert(errs[i].0 == "email"@);
    }
}

} // verus!
