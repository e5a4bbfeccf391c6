use futureyou::letters::{Letter, ScheduledLetter, State};
use futureyou::resendkit::{scheduled_letter, ResendKit, ScheduleError};
use futureyou::scheduler::{schedule_round, SchedulingRound, SCHEDULER_INTERVAL_SECS};
use futureyou::webhooks::{
    authenticate_webhook, check_webhook, SignatureHeaders, WebhookKind, WebhookSecrets, FORBIDDEN,
};

fn letter(due: i64) -> Letter {
    Letter {
        id: "L1".into(),
        state: State::Pending,
        message: "Dear me".into(),
        due_date: due,
        created_at: 0,
        writer_name: "Ada".into(),
        writer_email: "ada@example.com".into(),
        email_id: None,
    }
}

#[test]
fn verification_mail() {
    let kit = ResendKit::initialize();
    assert_eq!(kit.from, "noreply <goshen@docklabs.xyz>");
    let d = kit.verification_email("ada@example.com", "123456");
    assert_eq!(d.from, "noreply <goshen@docklabs.xyz>");
    assert_eq!(d.to, vec!["ada@example.com".to_string()]);
    assert_eq!(d.subject, "Verication Code");
    assert_eq!(
        d.html.as_deref(),
        Some("\n            <p>Hello there!</p>\n            <p>Your OTP is : 123456</p>\n        ")
    );
    assert_eq!(d.text, None);
    assert_eq!(d.scheduled_at, None);
}

#[test]
fn scheduled_mail() {
    let kit = ResendKit::initialize();
    let d = kit.scheduled_email(&letter(1_704_067_200_000)).unwrap();
    assert_eq!(d.from, "Ada <goshen@docklabs.xyz>");
    assert_eq!(d.to, vec!["ada@example.com".to_string()]);
    assert_eq!(d.subject, "Letter from the past you");
    assert_eq!(d.text.as_deref(), Some("Dear me"));
    assert_eq!(d.html, None);
    assert_eq!(d.scheduled_at.as_deref(), Some("2024-01-01T00:00:00Z"));
    assert_eq!(
        kit.scheduled_email(&letter(i64::MAX)),
        Err(ScheduleError::Parse("Error parsing the datetime".to_string()))
    );
    let s = scheduled_letter(letter(0), "mail-9".into());
    assert_eq!(s, ScheduledLetter { letter_id: "L1".into(), email_id: "mail-9".into() });
}

#[test]
fn round_keeps_only_accepted() {
    let mut round = SchedulingRound::new();
    round.record(None);
    assert_eq!(SchedulingRound::new().finish(), None);
    round.record(Some(ScheduledLetter { letter_id: "a".into(), email_id: "1".into() }));
    round.record(None);
    round.record(Some(ScheduledLetter { letter_id: "b".into(), email_id: "2".into() }));
    let v = round.finish().unwrap();
    assert_eq!(v.len(), 2);
    assert_eq!(v[1].letter_id, "b");
    assert_eq!(SCHEDULER_INTERVAL_SECS, 3600);
}

const SECRET: &str = "whsec_MfKQ9r8GKYqrTwjUPD8ILPZIo2LaLaSw";
const OTHER_SECRET: &str = "whsec_c2VjcmV0LWtleS1mb3ItdGVzdHM=";

fn signed_headers(secret: &str, body: &[u8], ts: i64) -> SignatureHeaders {
    let hook = svix::webhooks::Webhook::new(secret).unwrap();
    let sig = hook.sign("msg_1", ts, body).unwrap();
    SignatureHeaders {
        msg_id: Some("msg_1".to_string()),
        timestamp: Some(ts.to_string()),
        signature: Some(sig),
    }
}

fn now_secs() -> i64 {
    std::time::SystemTime::now().duration_since(std::time::UNIX_EPOCH).unwrap().as_secs() as i64
}

fn no_headers() -> SignatureHeaders {
    SignatureHeaders { msg_id: None, timestamp: None, signature: None }
}

#[test]
fn webhook_authentication() {
    let body = br#"{"data":{"email_id":"e1"}}"#;
    let headers = signed_headers(SECRET, body, now_secs());
    assert_eq!(authenticate_webhook(SECRET, body, &headers), Ok(()));
    assert_eq!(authenticate_webhook(SECRET, b"tampered", &headers), Err(FORBIDDEN));
    assert_eq!(authenticate_webhook(SECRET, body, &no_headers()), Err(403));
    let mut partial = signed_headers(SECRET, body, now_secs());
    partial.msg_id = None;
    assert_eq!(authenticate_webhook(SECRET, body, &partial), Err(403));
    let old = signed_headers(SECRET, body, now_secs() - 3600);
    assert_eq!(authenticate_webhook(SECRET, body, &old), Err(403));
    assert_eq!(authenticate_webhook("", body, &headers), Err(500));
    assert_eq!(authenticate_webhook("whsec_!!!", body, &headers), Err(500));

    let secrets = WebhookSecrets { delivered_secret: SECRET.into(), bounced_secret: "".into() };
    assert_eq!(check_webhook(&secrets, WebhookKind::Delivered, None, &headers), Err(400));
    assert_eq!(check_webhook(&secrets, WebhookKind::Delivered, Some(body), &headers), Ok(()));
    assert_eq!(check_webhook(&secrets, WebhookKind::Bounced, Some(body), &headers), Err(500));
    assert_eq!(secrets.secret_for(WebhookKind::Delivered), SECRET);
}

#[test]
fn bounced_notification_signed_with_other_secret_is_forbidden() {
    let body = br#"{"data":{"email_id":"e2"}}"#;
    let secrets = WebhookSecrets { delivered_secret: SECRET.into(), bounced_secret: OTHER_SECRET.into() };
    let signed_for_delivered = signed_headers(SECRET, body, now_secs());
    assert_eq!(
        check_webhook(&secrets, WebhookKind::Bounced, Some(body), &signed_for_delivered),
        Err(FORBIDDEN)
    );
    let signed_for_bounced = signed_headers(OTHER_SECRET, body, now_secs());
    assert_eq!(check_webhook(&secrets, WebhookKind::Bounced, Some(body), &signed_for_bounced), Ok(()));
    assert_eq!(
        check_webhook(&secrets, WebhookKind::Delivered, Some(body), &signed_for_bounced),
        Err(FORBIDDEN)
    );
}

#[test]
fn whole_round_keeps_accepted_in_order() {
    assert_eq!(schedule_round(vec![]), None);
    assert_eq!(schedule_round(vec![None, None]), None);
    let a = ScheduledLetter { letter_id: "a".into(), email_id: "1".into() };
    let b = ScheduledLetter { letter_id: "b".into(), email_id: "2".into() };
    let got = schedule_round(vec![None, Some(a), None, Some(b)]).unwrap();
    assert_eq!(
        got,
        vec![
            ScheduledLetter { letter_id: "a".into(), email_id: "1".into() },
            ScheduledLetter { letter_id: "b".into(), email_id: "2".into() }
        ]
    );
}
