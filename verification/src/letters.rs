use vstd::prelude::*;

use crate::handlers::FutureLetterDetails;
use crate::time::Timestamp;

verus! {

/// Where a letter stands in its life.
#[derive(Clone, Copy, Debug, PartialEq, Eq, Structural)]
pub enum State {
    Pending,
    Scheduled,
    Sent,
    Failed,
}

impl State {
    /// The name under which the state is stored.
    pub open spec fn spec_name(self) -> Seq<char> {
        match self {
            State::Pending => "Pending"@,
            State::Scheduled => "Scheduled"@,
            State::Sent => "Sent"@,
            State::Failed => "Failed"@,
        }
    }

    /// The name under which the state is stored.
    pub fn name(&self) -> (s: &'static str)
        ensures
            s@ == self.spec_name(),
    {
        match self {
            State::Pending => "Pending",
            State::Scheduled => "Scheduled",
            State::Sent => "Sent",
            State::Failed => "Failed",
        }
    }
}

/// A stored letter. Instants are milliseconds since the Unix epoch, as BSON
/// dates hold them.
#[derive(Debug, PartialEq, Eq)]
pub struct Letter {
    pub id: String,
    pub state: State,
    pub message: String,
    pub due_date: i64,
    pub created_at: i64,
    pub writer_name: String,
    pub writer_email: String,
    pub email_id: Option<String>,
}

/// A letter whose delivery the mail service has accepted, under the mail's id.
#[derive(Debug, PartialEq, Eq)]
pub struct ScheduledLetter {
    pub letter_id: String,
    pub email_id: String,
}

/// The instant, in milliseconds, that `bson::DateTime::parse_rfc3339_str` reads
/// from a string; `None` where it refuses the string.
pub uninterp spec fn bson_rfc3339_millis(s: Seq<char>) -> Option<i64>;

/// Calls `bson::DateTime::parse_rfc3339_str` and hands back the date's
/// milliseconds. Claimed: the result is `bson_rfc3339_millis` of the string, a
/// function of the string alone.
#[verifier::external_body]
fn bson_parse_rfc3339(s: &str) -> (r: Option<i64>)
    ensures
        r == bson_rfc3339_millis(s@),
{
    match bson::DateTime::parse_rfc3339_str(s) {
        Ok(d) => Some(d.timestamp_millis()),
        Err(_) => None,
    }
}

/// Calls `bson::DateTime::now()` and hands back its milliseconds. Nothing is
/// claimed of the value: it is the clock's.
#[verifier::external_body]
fn bson_now_millis() -> (r: i64) {
    bson::DateTime::now().timestamp_millis()
}

/// Whether a character is a lower-case hexadecimal digit.
pub open spec fn is_lower_hex(c: char) -> bool {
    ('0' <= c && c <= '9') || ('a' <= c && c <= 'f')
}

/// Whether a text is a version-7 UUID in uuid's hyphenated lower-case form:
/// 36 characters, hyphens at positions 8, 13, 18 and 23, lower-case hex digits
/// elsewhere, the version digit '7' at position 14 and one of '8', '9', 'a', 'b'
/// (the RFC 4122 variant) at position 19.
pub open spec fn is_v7_uuid_text(s: Seq<char>) -> bool {
    &&& s.len() == 36
    &&& forall|i: int|
        0 <= i < 36 ==> if i == 8 || i == 13 || i == 18 || i == 23 {
            #[trigger] s[i] == '-'
        } else {
            is_lower_hex(s[i])
        }
    &&& s[14] == '7'
    &&& (s[19] == '8' || s[19] == '9' || s[19] == 'a' || s[19] == 'b')
}

/// Calls `uuid::Uuid::now_v7()` and prints it. Claimed, from uuid's source
/// (`Display` writes the lower-case hyphenated form; `new_v7` sets the version
/// nibble to 7 and the variant bits to 10): the text is `is_v7_uuid_text`. Which
/// id comes back is not stated: it rests on the clock and on chance.
#[verifier::external_body]
fn uuid_now_v7() -> (id: String)
    ensures
        is_v7_uuid_text(id@),
{
    uuid::Uuid::now_v7().to_string()
}

impl Letter {
    /// The letter made of submitted details, with its id, its parsed delivery
    /// instant and its creation instant: pending, and not yet handed to the mail service.
    pub open spec fn spec_from_parts(
        details: FutureLetterDetails,
        id: String,
        due_date: i64,
        created_at: i64,
        letter: Letter,
    ) -> bool {
        &&& letter.id@ == id@
        &&& letter.state == State::Pending
        &&& letter.message@ == details.message@
        &&& letter.due_date == due_date
        &&& letter.created_at == created_at
        &&& letter.writer_name@ == details.name@
        &&& letter.writer_email@ == details.email@
        &&& letter.email_id is None
    }

    /// Builds the letter from submitted details and the values that the clock,
    /// chance and the date parser gave.
    pub fn from_parts(details: FutureLetterDetails, id: String, due_date: i64, created_at: i64) -> (letter: Letter)
        ensures
            Letter::spec_from_parts(details, id, due_date, created_at, letter),
    {
        Letter {
            id,
            state: State::Pending,
            message: details.message,
            due_date,
            created_at,
            writer_name: details.name,
            writer_email: details.email,
            email_id: None,
        }
    }

    /// Builds the letter from submitted details with a given id and creation
    /// instant, reading the delivery date as RFC 3339. `None` where the date does
    /// not read so (there, converting the details panics).
    pub fn from_details(details: FutureLetterDetails, id: String, created_at: i64) -> (r: Option<Letter>)
        ensures
            match bson_rfc3339_millis(details.delivery_date@) {
                None => r is None,
                Some(due) => r matches Some(letter) && Letter::spec_from_parts(details, id, due, created_at, letter),
            },
    {
        match bson_parse_rfc3339(details.delivery_date.as_str()) {
            None => None,
            Some(due) => Some(Letter::from_parts(details, id, due, created_at)),
        }
    }

    /// Builds a new letter from submitted details: a fresh time-ordered id, the
    /// current instant as its creation, the delivery date read as RFC 3339.
    pub fn from_submission(details: FutureLetterDetails) -> (r: Option<Letter>)
        ensures
            match bson_rfc3339_millis(details.delivery_date@) {
                None => r is None,
                Some(due) => r matches Some(letter) && is_v7_uuid_text(letter.id@)
                    && Letter::spec_from_parts(details, letter.id, due, letter.created_at, letter),
            },
    {
        let id = uuid_now_v7();
        let created_at = bson_now_millis();
        Letter::from_details(details, id, created_at)
    }
}

/// The selection of letters that are due to be handed to the mail service:
/// those still pending whose delivery falls before a cutoff.
#[derive(Debug, PartialEq, Eq)]
pub struct LetterQuery {
    pub state: State,
    pub due_before: i64,
}

/// How many days ahead letters are handed to the mail service for scheduling.
pub const SCHEDULING_HORIZON_DAYS: i64 = 29;

impl LetterQuery {
    /// Whether a letter is selected.
    pub open spec fn spec_matches(self, letter: Letter) -> bool {
        letter.state == self.state && letter.due_date < self.due_before
    }

    /// Whether a letter is selected.
    pub fn matches(&self, letter: &Letter) -> (b: bool)
        ensures
            b == self.spec_matches(*letter),
    {
        letter.state == self.state && letter.due_date < self.due_before
    }
}

/// The letters to schedule at instant `now`: pending ones due less than 29 days
/// after `now`, the cutoff kept in milliseconds as BSON keeps it.
pub fn letters_to_be_scheduled_at(now: &Timestamp) -> (q: LetterQuery)
    requires
        now.is_clock_reading(),
    ensures
        q.state == State::Pending,
        q.due_before as int == now.spec_plus_days(SCHEDULING_HORIZON_DAYS as int).spec_millis(),
{
    let cutoff = now.plus_days(SCHEDULING_HORIZON_DAYS);
    LetterQuery { state: State::Pending, due_before: cutoff.millis() }
}

/// The letters to schedule now.
pub fn letters_to_be_scheduled() -> (q: LetterQuery)
    ensures
        exists|now: Timestamp|
            now.is_clock_reading() && q.state == State::Pending && q.due_before as int
                == now.spec_plus_days(SCHEDULING_HORIZON_DAYS as int).spec_millis(),
{
    let now = Timestamp::now();
    letters_to_be_scheduled_at(&now)
}

/// The change recorded for a scheduled letter: the letter with that id becomes
/// scheduled and keeps the mail's id.
#[derive(Debug, PartialEq, Eq)]
pub struct LetterUpdate {
    pub letter_id: String,
    pub state: State,
    pub email_id: String,
}

impl LetterUpdate {
    /// What the update does to a letter: it sets the state and the mail's id of
    /// the letter it names, and leaves any other letter as it is.
    pub open spec fn spec_apply(self, before: Letter, after: Letter) -> bool {
        if before.id@ == self.letter_id@ {
            &&& after.id@ == before.id@
            &&& after.state == self.state
            &&& after.message@ == before.message@
            &&& after.due_date == before.due_date
            &&& after.created_at == before.created_at
            &&& after.writer_name@ == before.writer_name@
            &&& after.writer_email@ == before.writer_email@
            &&& after.email_id == Some(self.email_id)
        } else {
            after == before
        }
    }

    /// Applies the update to one letter.
    pub fn apply(&self, letter: &mut Letter)
        ensures
            self.spec_apply(*old(letter), *final(letter)),
    {
        if letter.id == self.letter_id {
            letter.state = self.state;
            letter.email_id = Some(self.email_id.clone());
        }
    }
}

/// The updates that record a batch of scheduled letters, one per letter in order.
pub fn bulk_updates(scheduled: &Vec<ScheduledLetter>) -> (u: Vec<LetterUpdate>)
    ensures
        u.len() == scheduled.len(),
        forall|i: int|
            0 <= i < u.len() ==> (#[trigger] u[i]).letter_id@ == scheduled[i].letter_id@
                && u[i].email_id@ == scheduled[i].email_id@ && u[i].state == State::Scheduled,
{
    let mut out: Vec<LetterUpdate> = Vec::new();
    let n = scheduled.len();
    let mut i: usize = 0;
    while i < n
        invariant
            n == scheduled.len(),
            i <= n,
            out.len() == i,
            forall|k: int|
                0 <= k < i ==> (#[trigger] out[k]).letter_id@ == scheduled[k].letter_id@
                    && out[k].email_id@ == scheduled[k].email_id@ && out[k].state == State::Scheduled,
        decreases n - i,
    {
        let s = &scheduled[i];
        out.push(
            LetterUpdate {
                letter_id: s.letter_id.clone(),
                state: State::Scheduled,
                email_id: s.email_id.clone(),
            },
        );
        i = i + 1;
    }
    out
}

/// The selection of the letter that a delivered mail carried.
#[derive(Debug, PartialEq, Eq)]
pub struct DeliveredFilter {
    pub email_id: String,
}

impl DeliveredFilter {
    /// The letter that was handed to the mail service under this mail's id.
    pub open spec fn spec_matches(self, letter: Letter) -> bool {
        letter.email_id matches Some(e) && e@ == self.email_id@
    }

    /// Whether a letter is the one delivered.
    pub fn matches(&self, letter: &Letter) -> (b: bool)
        ensures
            b == self.spec_matches(*letter),
    {
        match &letter.email_id {
            Some(e) => *e == self.email_id,
            None => false,
        }
    }
}

/// The letter to remove once the mail with this id has been delivered.
pub fn future_letter_delivered(email_id: &String) -> (f: DeliveredFilter)
    ensures
        f.email_id@ == email_id@,
{
    DeliveredFilter { email_id: email_id.clone() }
}

/// A letter that has been scheduled is no longer selected for scheduling, and it
/// is the one that a delivery of its mail removes: scheduling happens once per letter.
pub proof fn law_scheduled_letter_leaves_queue(
    update: LetterUpdate,
    before: Letter,
    after: Letter,
    query: LetterQuery,
)
    requires
        update.state == State::Scheduled,
        query.state == State::Pending,
        before.id@ == update.letter_id@,
        update.spec_apply(before, after),
    ensures
        !query.spec_matches(after),
        (DeliveredFilter { email_id: update.email_id }).spec_matches(after),
{
}

/// A letter made from a submission is pending and is selected for scheduling
/// exactly when its delivery falls before the cutoff; no delivery removes it
/// before it is scheduled.
pub proof fn law_new_letter_is_pending(
    details: FutureLetterDetails,
    id: String,
    due: i64,
    created_at: i64,
    letter: Letter,
    query: LetterQuery,
    filter: DeliveredFilter,
)
    requires
        Letter::spec_from_parts(details, id, due, created_at, letter),
        query.state == State::Pending,
    ensures
        query.spec_matches(letter) <==> due < query.due_before,
        !filter.spec_matches(letter),
{
}

/// The letter removed on a delivery is exactly the one that carries the
/// delivered mail's id: a letter with another mail id, or with none, is never
/// selected, so of two letters with different mail ids at most one is.
pub proof fn law_delivery_selects_only_its_letter(email_id: String, a: Letter, b: Letter)
    ensures
        (DeliveredFilter { email_id }).spec_matches(a) <==> (a.email_id matches Some(e) && e@ == email_id@),
        (a.email_id matches Some(x) && b.email_id matches Some(y) && x@ != y@) ==> !((DeliveredFilter {
            email_id,
        }).spec_matches(a) && (DeliveredFilter { email_id }).spec_matches(b)),
{
}

} // verus!
