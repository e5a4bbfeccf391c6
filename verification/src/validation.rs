use vstd::prelude::*;

use crate::time::Timestamp;

verus! {

/// A failed rule on one field: a short code and, where the rule has one, the
/// message shown to the user.
#[derive(Debug, PartialEq, Eq)]
pub struct FieldError {
    pub code: String,
    pub message: Option<String>,
}

/// The plain value of an optional string.
pub open spec fn opt_view(o: Option<String>) -> Option<Seq<char>> {
    match o {
        Some(s) => Some(s@),
        None => None,
    }
}

impl View for FieldError {
    type V = (Seq<char>, Option<Seq<char>>);

    open spec fn view(&self) -> (Seq<char>, Option<Seq<char>>) {
        (self.code@, opt_view(self.message))
    }
}

impl FieldError {
    /// An error with a code and a message.
    pub fn with_message(code: &str, message: &str) -> (e: FieldError)
        ensures
            e@ == (code@, Some(message@)),
    {
        FieldError { code: String::from_str(code), message: Some(String::from_str(message)) }
    }
}

/// The errors of one field, in the order in which its rules failed.
#[derive(Debug, PartialEq, Eq)]
pub struct FieldErrors {
    pub field: String,
    pub errors: Vec<FieldError>,
}

/// The plain value of one field's errors: its name and the errors' values.
pub open spec fn field_errors_view(f: FieldErrors) -> (Seq<char>, Seq<(Seq<char>, Option<Seq<char>>)>) {
    (f.field@, f.errors@.map_values(|e: FieldError| e@))
}

/// Field-level errors of one validated value, each field named once, as
/// `validator::ValidationErrors` collects them.
#[derive(Debug, PartialEq, Eq)]
pub struct ValidationErrors {
    entries: Vec<FieldErrors>,
}

/// Whether no field name occurs twice.
pub open spec fn distinct_fields(entries: Seq<(Seq<char>, Seq<(Seq<char>, Option<Seq<char>>)>)>) -> bool {
    forall|i: int, j: int|
        0 <= i < entries.len() && 0 <= j < entries.len() && i != j ==> #[trigger] entries[i].0
            != #[trigger] entries[j].0
}

/// Where a field stands among the entries, if it does.
pub open spec fn field_index(entries: Seq<(Seq<char>, Seq<(Seq<char>, Option<Seq<char>>)>)>, field: Seq<char>) -> Option<int> {
    if exists|i: int| 0 <= i < entries.len() && entries[i].0 == field {
        Some(choose|i: int| 0 <= i < entries.len() && entries[i].0 == field)
    } else {
        None
    }
}

/// The entries after one more error of `field`: appended to that field's list,
/// or a new entry at the end for a field that had none.
pub open spec fn with_error(
    entries: Seq<(Seq<char>, Seq<(Seq<char>, Option<Seq<char>>)>)>,
    field: Seq<char>,
    error: (Seq<char>, Option<Seq<char>>),
) -> Seq<(Seq<char>, Seq<(Seq<char>, Option<Seq<char>>)>)> {
    match field_index(entries, field) {
        Some(i) => entries.update(i, (field, entries[i].1.push(error))),
        None => entries.push((field, seq![error])),
    }
}

impl View for ValidationErrors {
    type V = Seq<(Seq<char>, Seq<(Seq<char>, Option<Seq<char>>)>)>;

    closed spec fn view(&self) -> Seq<(Seq<char>, Seq<(Seq<char>, Option<Seq<char>>)>)> {
        entries_view(self.entries@)
    }
}

/// Every field is named once and has at least one error.
pub open spec fn well_formed(entries: Seq<(Seq<char>, Seq<(Seq<char>, Option<Seq<char>>)>)>) -> bool {
    &&& distinct_fields(entries)
    &&& forall|i: int| 0 <= i < entries.len() ==> #[trigger] entries[i].1.len() > 0
}

/// The plain value of a list of field errors.
pub open spec fn entries_view(v: Seq<FieldErrors>) -> Seq<(Seq<char>, Seq<(Seq<char>, Option<Seq<char>>)>)> {
    v.map_values(|f: FieldErrors| field_errors_view(f))
}

impl ValidationErrors {
    /// Every field is named once and has at least one error.
    #[verifier::type_invariant]
    closed spec fn inv(self) -> bool {
        well_formed(self@)
    }

    /// No errors at all.
    pub fn new() -> (e: ValidationErrors)
        ensures
            e@ == Seq::<(Seq<char>, Seq<(Seq<char>, Option<Seq<char>>)>)>::empty(),
    {
        let entries: Vec<FieldErrors> = Vec::new();
        assert(entries_view(entries@) =~= Seq::<(Seq<char>, Seq<(Seq<char>, Option<Seq<char>>)>)>::empty());
        ValidationErrors { entries }
    }

    /// Whether there are no errors.
    pub fn is_empty(&self) -> (b: bool)
        ensures
            b == (self@.len() == 0),
    {
        self.entries.len() == 0
    }

    /// The number of fields with errors.
    pub fn len(&self) -> (n: usize)
        ensures
            n == self@.len(),
    {
        self.entries.len()
    }

    /// The errors of the field at position `i`.
    pub fn entry(&self, i: usize) -> (f: &FieldErrors)
        requires
            i < self@.len(),
        ensures
            field_errors_view(*f) == self@[i as int],
    {
        &self.entries[i]
    }

    /// Records one more error of `field`, as `validator::ValidationErrors::add` does.
    pub fn add(&mut self, field: &str, error: FieldError)
        ensures
            final(self)@ == with_error(old(self)@, field@, error@),
    {
        proof {
            use_type_invariant(&*self);
        }
        let ghost before = self@;
        let mut entries: Vec<FieldErrors> = Vec::new();
        assert(entries_view(entries@) =~= Seq::<(Seq<char>, Seq<(Seq<char>, Option<Seq<char>>)>)>::empty());
        std::mem::swap(&mut entries, &mut self.entries);
        assert(entries_view(entries@) == before);
        let name = String::from_str(field);
        let n = entries.len();
        let mut i: usize = 0;
        while i < n
            invariant
                n == entries.len(),
                entries_view(entries@) == before,
                before == old(self)@,
                i <= n,
                name@ == field@,
                well_formed(before),
                forall|k: int| 0 <= k < i ==> (#[trigger] before[k]).0 != field@,
            decreases n - i,
        {
            if entries[i].field == name {
                assert(before[i as int].0 == field@);
                let mut entry = entries.remove(i);
                let ghost old_errors = entry.errors@;
                entry.errors.push(error);
                entries.insert(i, entry);
                proof {
                    assert(field_index(before, field@) is Some);
                    let j = field_index(before, field@)->0;
                    assert(j == i) by {
                        if j != i {
                            assert(before[j].0 == before[i as int].0);
                        }
                    }
                    assert(entry.errors@.map_values(|e: FieldError| e@) =~= old_errors.map_values(
                        |e: FieldError| e@,
                    ).push(error@));
                    assert(entries_view(entries@) =~= with_error(before, field@, error@));
                    let now = entries_view(entries@);
                    assert forall|a: int, b: int|
                        0 <= a < now.len() && 0 <= b < now.len() && a != b implies #[trigger] now[a].0
                            != #[trigger] now[b].0 by {
                        assert(before[a].0 != before[b].0);
                    }
                    assert(well_formed(now));
                }
                self.entries = entries;
                return;
            }
            i = i + 1;
        }
        let mut errors = Vec::new();
        errors.push(error);
        let entry = FieldErrors { field: name, errors };
        entries.push(entry);
        proof {
            assert(field_index(before, field@) is None);
            assert(entry.errors@.map_values(|e: FieldError| e@) =~= seq![error@]);
            assert(entries_view(entries@) =~= with_error(before, field@, error@));
            assert(well_formed(entries_view(entries@)));
        }
        self.entries = entries;
    }
}

/// How one error is printed: its message, or, where it has none,
/// "Validation error: " and its code. (validator's `Display` also appends the
/// error's parameters there; they are not kept in this library, and no rule of
/// this service makes an error without a message.)
pub open spec fn error_text(e: (Seq<char>, Option<Seq<char>>)) -> Seq<char> {
    match e.1 {
        Some(m) => m,
        None => "Validation error: "@ + e.0,
    }
}

/// The errors of one field, each printed, separated by ", ".
pub open spec fn joined_errors(errs: Seq<(Seq<char>, Option<Seq<char>>)>) -> Seq<char>
    decreases errs.len(),
{
    if errs.len() == 0 {
        Seq::empty()
    } else if errs.len() == 1 {
        error_text(errs[0])
    } else {
        joined_errors(errs.drop_last()) + ", "@ + error_text(errs.last())
    }
}

/// One field's line: `field: errors`.
pub open spec fn entry_text(e: (Seq<char>, Seq<(Seq<char>, Option<Seq<char>>)>)) -> Seq<char> {
    e.0 + ": "@ + joined_errors(e.1)
}

/// How `validator::ValidationErrors` prints: one line per field.
pub open spec fn errors_text(entries: Seq<(Seq<char>, Seq<(Seq<char>, Option<Seq<char>>)>)>) -> Seq<char>
    decreases entries.len(),
{
    if entries.len() == 0 {
        Seq::empty()
    } else if entries.len() == 1 {
        entry_text(entries[0])
    } else {
        errors_text(entries.drop_last()) + "\n"@ + entry_text(entries.last())
    }
}

/// The map from field to message that an error response shows: the first
/// error's message, or "Invalid value for <field>" where it has none.
pub open spec fn first_messages(entries: Seq<(Seq<char>, Seq<(Seq<char>, Option<Seq<char>>)>)>) -> Seq<(Seq<char>, Seq<char>)>
    decreases entries.len(),
{
    if entries.len() == 0 {
        Seq::empty()
    } else {
        let rest = first_messages(entries.drop_last());
        let e = entries.last();
        if e.1.len() == 0 {
            rest
        } else {
            rest.push((e.0, match e.1[0].1 {
                Some(m) => m,
                None => "Invalid value for "@ + e.0,
            }))
        }
    }
}

/// Whether no key occurs twice among the pairs.
pub open spec fn distinct_keys(pairs: Seq<(Seq<char>, Seq<char>)>) -> bool {
    forall|i: int, j: int|
        0 <= i < pairs.len() && 0 <= j < pairs.len() && i != j ==> #[trigger] pairs[i].0
            != #[trigger] pairs[j].0
}

/// Every key of the message map is a field of the entries, and distinct fields
/// give distinct keys.
pub proof fn lemma_first_messages_keys(entries: Seq<(Seq<char>, Seq<(Seq<char>, Option<Seq<char>>)>)>)
    ensures
        forall|k: int|
            0 <= k < first_messages(entries).len() ==> exists|i: int|
                0 <= i < entries.len() && entries[i].0 == (#[trigger] first_messages(entries)[k]).0,
        distinct_fields(entries) ==> distinct_keys(first_messages(entries)),
    decreases entries.len(),
{
    if entries.len() > 0 {
        let init = entries.drop_last();
        lemma_first_messages_keys(init);
        let rest = first_messages(init);
        let fm = first_messages(entries);
        let n = entries.len() - 1;
        assert forall|k: int| 0 <= k < fm.len() implies exists|i: int|
            0 <= i < entries.len() && entries[i].0 == (#[trigger] fm[k]).0 by {
            if k < rest.len() {
                assert(fm[k] == rest[k]);
                let i = choose|i: int| 0 <= i < init.len() && init[i].0 == rest[k].0;
                assert(entries[i] == init[i]);
            } else {
                assert(entries[n].0 == fm[k].0);
            }
        }
        if distinct_fields(entries) {
            assert(distinct_fields(init)) by {
                assert forall|a: int, b: int|
                    0 <= a < init.len() && 0 <= b < init.len() && a != b implies #[trigger] init[a].0
                        != #[trigger] init[b].0 by {
                    assert(init[a] == entries[a] && init[b] == entries[b]);
                }
            }
            assert forall|a: int, b: int|
                0 <= a < fm.len() && 0 <= b < fm.len() && a != b implies #[trigger] fm[a].0
                    != #[trigger] fm[b].0 by {
                if a < rest.len() && b < rest.len() {
                    assert(fm[a] == rest[a] && fm[b] == rest[b]);
                } else if a < rest.len() {
                    assert(fm[a] == rest[a]);
                    let i = choose|i: int| 0 <= i < init.len() && init[i].0 == rest[a].0;
                    assert(entries[i] == init[i]);
                    assert(fm[b].0 == entries[n].0);
                } else {
                    assert(fm[b] == rest[b]);
                    let i = choose|i: int| 0 <= i < init.len() && init[i].0 == rest[b].0;
                    assert(entries[i] == init[i]);
                    assert(fm[a].0 == entries[n].0);
                }
            }
        }
    }
}

fn error_to_text(e: &FieldError) -> (s: String)
    ensures
        s@ == error_text(e@),
{
    match &e.message {
        Some(m) => m.clone(),
        None => {
            let s = String::from_str("Validation error: ");
            s.concat(e.code.as_str())
        },
    }
}

fn field_line(f: &FieldErrors) -> (s: String)
    ensures
        s@ == entry_text(field_errors_view(*f)),
{
    let ghost errs = f.errors@.map_values(|e: FieldError| e@);
    let mut joined = String::new();
    let n = f.errors.len();
    let mut i: usize = 0;
    while i < n
        invariant
            n == f.errors@.len(),
            errs == f.errors@.map_values(|e: FieldError| e@),
            i <= n,
            joined@ == joined_errors(errs.take(i as int)),
        decreases n - i,
    {
        let t = error_to_text(&f.errors[i]);
        proof {
            assert(errs.take(i + 1).drop_last() =~= errs.take(i as int));
            assert(errs.take(i + 1).last() == errs[i as int]);
        }
        if i == 0 {
            joined = t;
            proof {
                assert(errs.take(1)[0] == errs[0]);
            }
        } else {
            joined.append(", ");
            joined.append(t.as_str());
            proof {
                reveal_strlit(", ");
            }
        }
        i = i + 1;
    }
    assert(errs.take(n as int) =~= errs);
    let mut line = f.field.clone();
    line.append(": ");
    line.append(joined.as_str());
    line
}

impl ValidationErrors {
    /// Prints the errors as `validator::ValidationErrors`'s `Display` does, one
    /// line per field in the order of the entries.
    pub fn to_text(&self) -> (s: String)
        ensures
            s@ == errors_text(self@),
    {
        let ghost es = self@;
        let mut out = String::new();
        let n = self.entries.len();
        let mut i: usize = 0;
        while i < n
            invariant
                n == self@.len(),
                es == self@,
                i <= n,
                out@ == errors_text(es.take(i as int)),
            decreases n - i,
        {
            let line = field_line(&self.entries[i]);
            proof {
                assert(es.take(i + 1).drop_last() =~= es.take(i as int));
                assert(es.take(i + 1).last() == es[i as int]);
                assert(es[i as int] == field_errors_view(self.entries@[i as int]));
            }
            if i == 0 {
                out = line;
                proof {
                    assert(es.take(1)[0] == es[0]);
                }
            } else {
                out.append("\n");
                out.append(line.as_str());
            }
            i = i + 1;
        }
        assert(es.take(n as int) =~= es);
        out
    }
}

/// For each field with errors, its first error's message, or
/// "Invalid value for <field>" where that error has none.
pub fn validation_errors_to_map(errors: &ValidationErrors) -> (m: Vec<(String, String)>)
    ensures
        m@.map_values(|p: (String, String)| (p.0@, p.1@)) == first_messages(errors@),
        distinct_keys(m@.map_values(|p: (String, String)| (p.0@, p.1@))),
{
    proof {
        use_type_invariant(errors);
        lemma_first_messages_keys(errors@);
    }
    let ghost es = errors@;
    let mut out: Vec<(String, String)> = Vec::new();
    let n = errors.entries.len();
    let mut i: usize = 0;
    while i < n
        invariant
            n == errors@.len(),
            es == errors@,
            i <= n,
            out@.map_values(|p: (String, String)| (p.0@, p.1@)) == first_messages(es.take(i as int)),
        decreases n - i,
    {
        let f = &errors.entries[i];
        proof {
            assert(es.take(i + 1).drop_last() =~= es.take(i as int));
            assert(es[i as int] == field_errors_view(errors.entries@[i as int]));
        }
        if f.errors.len() > 0 {
            let message = match &f.errors[0].message {
                Some(m) => m.clone(),
                None => {
                    let s = String::from_str("Invalid value for ");
                    s.concat(f.field.as_str())
                },
            };
            let ghost before = out@;
            out.push((f.field.clone(), message));
            proof {
                assert(out@.map_values(|p: (String, String)| (p.0@, p.1@)) =~= before.map_values(
                    |p: (String, String)| (p.0@, p.1@),
                ).push((f.field@, message@)));
            }
        }
        i = i + 1;
    }
    assert(es.take(n as int) =~= es);
    out
}

} // verus!

verus! {

/// What `validator`'s `ValidateEmail::validate_email` answers for a string:
/// the HTML5 address syntax with length limits and internationalised domains.
pub uninterp spec fn validator_accepts_email(s: Seq<char>) -> bool;

/// Calls `validator::ValidateEmail::validate_email` on a string. Claimed: the
/// answer is `validator_accepts_email` of the string, a function of the string alone.
#[verifier::external_body]
fn validator_email(s: &str) -> (b: bool)
    ensures
        b == validator_accepts_email(s@),
{
    validator::ValidateEmail::validate_email(&s)
}

/// Whether a string is an e-mail address by `validator`'s rule.
pub fn is_valid_email(s: &str) -> (b: bool)
    ensures
        b == validator_accepts_email(s@),
{
    validator_email(s)
}

/// The length rule of `validator` on a string, counted in characters: with
/// `equal`, the count must be that; else at least `min` and at most `max`
/// where they are given.
pub open spec fn length_within(s: Seq<char>, min: Option<u64>, max: Option<u64>, equal: Option<u64>) -> bool {
    match equal {
        Some(eq) => s.len() == eq,
        None => {
            &&& (match min { Some(m) => s.len() >= m, None => true })
            &&& (match max { Some(m) => s.len() <= m, None => true })
        },
    }
}

/// Checks the length rule, as `validator::ValidateLength::validate_length` does for strings.
pub fn validate_length(s: &str, min: Option<u64>, max: Option<u64>, equal: Option<u64>) -> (b: bool)
    ensures
        b == length_within(s@, min, max, equal),
{
    let len = s.unicode_len() as u64;
    match equal {
        Some(eq) => len == eq,
        None => {
            let min_ok = match min {
                Some(m) => len >= m,
                None => true,
            };
            let max_ok = match max {
                Some(m) => len <= m,
                None => true,
            };
            min_ok && max_ok
        },
    }
}

} // verus!
