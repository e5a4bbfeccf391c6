use futureyou::handlers::{prepare_future_letter, FutureLetterDetails};
use futureyou::letters::{
    bulk_updates, future_letter_delivered, letters_to_be_scheduled, letters_to_be_scheduled_at,
    Letter, LetterQuery, ScheduledLetter, State,
};
use futureyou::responses::ApiError;
use futureyou::time::Timestamp;

fn details(date: &str) -> FutureLetterDetails {
    FutureLetterDetails {
        name: "Ada".to_string(),
        email: "ada@example.com".to_string(),
        message: "Hello future me".to_string(),
        delivery_date: date.to_string(),
    }
}

fn letter(id: &str, state: State, due: i64, email_id: Option<&str>) -> Letter {
    Letter {
        id: id.to_string(),
        state,
        message: "m".to_string(),
        due_date: due,
        created_at: 0,
        writer_name: "Ada".to_string(),
        writer_email: "ada@example.com".to_string(),
        email_id: email_id.map(|s| s.to_string()),
    }
}

#[test]
fn state_names() {
    assert_eq!(State::Pending.name(), "Pending");
    assert_eq!(State::Scheduled.name(), "Scheduled");
    assert_eq!(State::Sent.name(), "Sent");
    assert_eq!(State::Failed.name(), "Failed");
}

#[test]
fn letter_from_details_reads_rfc3339() {
    let l = Letter::from_details(details("2030-05-01T10:00:00Z"), "id-1".to_string(), 42).unwrap();
    assert_eq!(l.id, "id-1");
    assert_eq!(l.state, State::Pending);
    assert_eq!(l.message, "Hello future me");
    assert_eq!(l.due_date, 1_903_860_000_000);
    assert_eq!(l.created_at, 42);
    assert_eq!(l.writer_name, "Ada");
    assert_eq!(l.writer_email, "ada@example.com");
    assert_eq!(l.email_id, None);
    assert_eq!(Letter::from_details(details("someday"), "id".to_string(), 0), None);
}

#[test]
fn letter_from_submission_gets_fresh_id() {
    let a = Letter::from_submission(details("2030-05-01T10:00:00.250Z")).unwrap();
    let b = Letter::from_submission(details("2030-05-01T10:00:00.250Z")).unwrap();
    assert_eq!(a.id.len(), 36);
    for (i, c) in a.id.chars().enumerate() {
        if [8, 13, 18, 23].contains(&i) {
            assert_eq!(c, '-');
        } else {
            assert!(c.is_ascii_digit() || ('a'..='f').contains(&c));
        }
    }
    assert_eq!(a.id.chars().nth(14), Some('7'));
    assert!(['8', '9', 'a', 'b'].contains(&a.id.chars().nth(19).unwrap()));
    assert_ne!(a.id, b.id);
    assert_eq!(a.due_date, 1_903_860_000_250);
    assert!(a.created_at > 1_700_000_000_000);
}

#[test]
fn prepare_validates_then_builds() {
    match prepare_future_letter(details("2001-01-01T00:00:00Z")) {
        Err(ApiError::Validation(e)) => assert_eq!(e.entry(0).field, "delivery_date"),
        other => panic!("unexpected {:?}", other),
    }
    let l = prepare_future_letter(details("2999-01-01T00:00:00Z")).unwrap().unwrap();
    assert_eq!(l.state, State::Pending);
}

#[test]
fn scheduling_query() {
    let now = Timestamp { secs: 1_000, nanos: 500_000_000 };
    let q = letters_to_be_scheduled_at(&now);
    assert_eq!(q, LetterQuery { state: State::Pending, due_before: (1_000 + 29 * 86_400) * 1000 + 500 });
    assert!(q.matches(&letter("a", State::Pending, q.due_before - 1, None)));
    assert!(!q.matches(&letter("a", State::Pending, q.due_before, None)));
    assert!(!q.matches(&letter("a", State::Scheduled, 0, Some("e"))));
    let live = letters_to_be_scheduled();
    assert_eq!(live.state, State::Pending);
    assert!(live.due_before > 1_700_000_000_000 + 29 * 86_400_000);
}

#[test]
fn updates_schedule_letters_once() {
    let scheduled = vec![
        ScheduledLetter { letter_id: "a".into(), email_id: "m1".into() },
        ScheduledLetter { letter_id: "b".into(), email_id: "m2".into() },
    ];
    let updates = bulk_updates(&scheduled);
    assert_eq!(updates.len(), 2);
    assert_eq!(updates[1].letter_id, "b");
    assert_eq!(updates[1].email_id, "m2");
    assert_eq!(updates[1].state, State::Scheduled);

    let mut a = letter("a", State::Pending, 5, None);
    let mut b = letter("b", State::Pending, 5, None);
    updates[0].apply(&mut a);
    updates[0].apply(&mut b);
    assert_eq!(a.state, State::Scheduled);
    assert_eq!(a.email_id.as_deref(), Some("m1"));
    assert_eq!(b, letter("b", State::Pending, 5, None));

    let q = LetterQuery { state: State::Pending, due_before: 100 };
    assert!(!q.matches(&a));
    assert!(q.matches(&b));
    let filter = future_letter_delivered(&"m1".to_string());
    assert!(filter.matches(&a));
    assert!(!filter.matches(&b));
}
