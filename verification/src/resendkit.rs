use vstd::prelude::*;

use crate::letters::{Letter, ScheduledLetter};

verus! {

/// A mail ready for the mail service: sender, recipients, subject, an HTML or a
/// plain-text body, and, for a scheduled mail, when to send it (RFC 3339).
#[derive(Debug, PartialEq, Eq)]
pub struct EmailDraft {
    pub from: String,
    pub to: Vec<String>,
    pub subject: String,
    pub html: Option<String>,
    pub text: Option<String>,
    pub scheduled_at: Option<String>,
}

/// Why a letter could not be handed to the mail service.
#[derive(Debug, PartialEq, Eq)]
pub enum ScheduleError {
    /// The letter's delivery instant has no RFC 3339 form.
    Parse(String),
}

/// The sending side of the mail service: the address that mails come from.
#[derive(Debug, PartialEq, Eq)]
pub struct ResendKit {
    pub from: String,
}

/// The RFC 3339 text that `bson::DateTime::try_to_rfc3339_string` writes for an
/// instant in milliseconds; `None` where it cannot format it.
pub uninterp spec fn bson_rfc3339_text(millis: i64) -> Option<Seq<char>>;

/// Calls `bson::DateTime::from_millis(millis).try_to_rfc3339_string()`.
/// Claimed: the result is `bson_rfc3339_text` of the instant, a function of it alone.
#[verifier::external_body]
fn bson_to_rfc3339(millis: i64) -> (r: Option<String>)
    ensures
        match r {
            Some(s) => bson_rfc3339_text(millis) == Some(s@),
            None => bson_rfc3339_text(millis) is None,
        },
{
    match bson::DateTime::from_millis(millis).try_to_rfc3339_string() {
        Ok(s) => Some(s),
        Err(_) => None,
    }
}

/// The sender of every mail that the service writes itself.
pub open spec fn service_sender() -> Seq<char> {
    "noreply <goshen@docklabs.xyz>"@
}

/// The HTML body of the verification mail for a password.
pub open spec fn verification_body(otp: Seq<char>) -> Seq<char> {
    "\n            <p>Hello there!</p>\n            <p>Your OTP is : "@ + otp + "</p>\n        "@
}

/// The sender of a letter's mail: its writer's name at the service's address.
pub open spec fn letter_sender(writer_name: Seq<char>) -> Seq<char> {
    writer_name + " <goshen@docklabs.xyz>"@
}

/// The plain value of a list of strings.
pub open spec fn strings_view(v: Vec<String>) -> Seq<Seq<char>> {
    v@.map_values(|s: String| s@)
}

/// The plain value of an optional string.
pub open spec fn opt_string_view(o: Option<String>) -> Option<Seq<char>> {
    match o {
        Some(s) => Some(s@),
        None => None,
    }
}

impl ResendKit {
    /// The service's sending side, with its sender address.
    pub fn initialize() -> (k: ResendKit)
        ensures
            k.from@ == service_sender(),
    {
        ResendKit { from: String::from_str("noreply <goshen@docklabs.xyz>") }
    }

    /// The mail that tells `email` its one-time password.
    pub fn verification_email(&self, email: &str, otp: &str) -> (d: EmailDraft)
        ensures
            d.from@ == self.from@,
            strings_view(d.to) == seq![email@],
            d.subject@ == "Verication Code"@,
            opt_string_view(d.html) == Some(verification_body(otp@)),
            d.text is None,
            d.scheduled_at is None,
    {
        let body = String::from_str("\n            <p>Hello there!</p>\n            <p>Your OTP is : ");
        let body = body.concat(otp);
        let body = body.concat("</p>\n        ");
        let mut to: Vec<String> = Vec::new();
        to.push(String::from_str(email));
        proof {
            assert(strings_view(to) =~= seq![email@]);
        }
        EmailDraft {
            from: self.from.clone(),
            to,
            subject: String::from_str("Verication Code"),
            html: Some(body),
            text: None,
            scheduled_at: None,
        }
    }

    /// The mail that carries a letter to its writer on its delivery date: from the
    /// writer's name, with the message as text, sent at the delivery instant.
    /// Fails where the delivery instant has no RFC 3339 form.
    pub fn scheduled_email(&self, letter: &Letter) -> (r: Result<EmailDraft, ScheduleError>)
        ensures
            match bson_rfc3339_text(letter.due_date) {
                None => r matches Err(ScheduleError::Parse(m)) && m@ == "Error parsing the datetime"@,
                Some(when) => r matches Ok(d) && d.from@ == letter_sender(letter.writer_name@)
                    && strings_view(d.to) == seq![letter.writer_email@] && d.subject@
                    == "Letter from the past you"@ && d.html is None && opt_string_view(d.text)
                    == Some(letter.message@) && opt_string_view(d.scheduled_at) == Some(when),
            },
    {
        let due = match bson_to_rfc3339(letter.due_date) {
            Some(s) => s,
            None => {
                return Err(ScheduleError::Parse(String::from_str("Error parsing the datetime")));
            },
        };
        let from = letter.writer_name.clone().concat(" <goshen@docklabs.xyz>");
        let mut to: Vec<String> = Vec::new();
        to.push(letter.writer_email.clone());
        proof {
            assert(strings_view(to) =~= seq![letter.writer_email@]);
        }
        Ok(
            EmailDraft {
                from,
                to,
                subject: String::from_str("Letter from the past you"),
                html: None,
                text: Some(letter.message.clone()),
                scheduled_at: Some(due),
            },
        )
    }
}

/// The record of a letter that the mail service accepted under `email_id`.
pub fn scheduled_letter(letter: Letter, email_id: String) -> (s: ScheduledLetter)
    ensures
        s.letter_id@ == letter.id@,
        s.email_id@ == email_id@,
{
    ScheduledLetter { letter_id: letter.id, email_id }
}

} // verus!
