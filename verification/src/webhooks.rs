use vstd::prelude::*;

use axum::http::{HeaderMap, HeaderValue};
use svix::webhooks::Webhook;

use crate::responses::{BAD_REQUEST, INTERNAL_SERVER_ERROR};
use crate::text::{parse_i64, std_parse_i64};
use crate::time::Timestamp;

verus! {

/// HTTP 200 OK.
pub const OK: u16 = 200;
/// HTTP 403 Forbidden.
pub const FORBIDDEN: u16 = 403;

/// The signing secrets of the mail service's two notifications.
#[derive(Debug, PartialEq, Eq)]
pub struct WebhookSecrets {
    pub delivered_secret: String,
    pub bounced_secret: String,
}

/// Which notification arrived.
#[derive(Clone, Copy, Debug, PartialEq, Eq, Structural)]
pub enum WebhookKind {
    Delivered,
    Bounced,
}

impl WebhookSecrets {
    /// The secret that signs a notification of this kind.
    pub fn secret_for(&self, kind: WebhookKind) -> (s: &String)
        ensures
            s == (match kind {
                WebhookKind::Delivered => &self.delivered_secret,
                WebhookKind::Bounced => &self.bounced_secret,
            }),
    {
        match kind {
            WebhookKind::Delivered => &self.delivered_secret,
            WebhookKind::Bounced => &self.bounced_secret,
        }
    }
}

/// Whether `svix::webhooks::Webhook::new` accepts a signing secret (its text
/// after an optional "whsec_" prefix must be non-empty standard Base64).
pub uninterp spec fn svix_accepts_secret(secret: Seq<char>) -> bool;

/// Whether svix's signature check, leaving the signing time aside, accepts a
/// payload that carries the three values as its "svix-id", "svix-timestamp" and
/// "svix-signature" headers, under the webhook made from the secret: the values
/// are valid header text, the secret is accepted, the timestamp reads as an
/// integer, the payload as UTF-8, and a "v1," entry of the signature equals the
/// Base64 HMAC-SHA256, under the key decoded from the secret, of
/// "<msg_id>.<timestamp>.<payload>".
pub uninterp spec fn svix_signature_valid(
    secret: Seq<char>,
    payload: Seq<u8>,
    msg_id: Seq<char>,
    timestamp: Seq<char>,
    signature: Seq<char>,
) -> bool;

/// Calls `svix::webhooks::Webhook::new`. Claimed: it succeeds exactly when
/// `svix_accepts_secret` holds of the secret, a function of the secret alone.
#[verifier::external_body]
fn svix_webhook(secret: &str) -> (accepted: bool)
    ensures
        accepted <==> svix_accepts_secret(secret@),
{
    svix::webhooks::Webhook::new(secret).is_ok()
}

/// Calls `svix::webhooks::Webhook::verify_ignoring_timestamp` on a payload whose
/// "svix-id", "svix-timestamp" and "svix-signature" headers carry the three
/// values, with the webhook made from the secret. Claimed, from svix's source: it
/// reads the three headers, parses the timestamp, signs and compares, and reads
/// no clock, so its answer is `svix_signature_valid` of exactly these arguments.
/// (`verify` is this check followed by the signing-time check, which
/// `authenticate_webhook_at` makes.)
#[verifier::external_body]
fn svix_verify(secret: &str, payload: &[u8], msg_id: &str, timestamp: &str, signature: &str) -> (ok: bool)
    ensures
        ok <==> svix_signature_valid(secret@, payload@, msg_id@, timestamp@, signature@),
{
    let mut headers = HeaderMap::new();
    match (HeaderValue::from_str(msg_id), HeaderValue::from_str(timestamp), HeaderValue::from_str(signature)) {
        (Ok(i), Ok(t), Ok(s)) => {
            headers.insert("svix-id", i);
            headers.insert("svix-timestamp", t);
            headers.insert("svix-signature", s);
        },
        _ => return false,
    }
    match Webhook::new(secret) {
        Ok(w) => w.verify_ignoring_timestamp(payload, &headers).is_ok(),
        Err(_) => false,
    }
}

/// The three signature headers of a notification ("svix-id", "svix-timestamp",
/// "svix-signature", or their "webhook-" namesakes), as text; `None` where a
/// header is missing or not visible ASCII.
#[derive(Debug, PartialEq, Eq)]
pub struct SignatureHeaders {
    pub msg_id: Option<String>,
    pub timestamp: Option<String>,
    pub signature: Option<String>,
}

/// Whether all three headers are present and sign the payload under the secret.
pub open spec fn signed_by(secret: Seq<char>, payload: Seq<u8>, headers: SignatureHeaders) -> bool {
    match (headers.msg_id, headers.timestamp, headers.signature) {
        (Some(i), Some(t), Some(s)) => svix_signature_valid(secret, payload, i@, t@, s@),
        _ => false,
    }
}

/// What checking a notification answers: 500 where the secret itself is
/// unusable; otherwise 403 where a signature header is missing, and success only
/// where the headers sign the payload under the secret (a valid signature may
/// still be refused with 403 when its time is out of tolerance).
pub open spec fn authentication_outcome(
    secret: Seq<char>,
    payload: Seq<u8>,
    headers: SignatureHeaders,
    r: Result<(), u16>,
) -> bool {
    if !svix_accepts_secret(secret) {
        r == Err::<(), u16>(INTERNAL_SERVER_ERROR)
    } else if headers.msg_id is None || headers.timestamp is None || headers.signature is None {
        r == Err::<(), u16>(FORBIDDEN)
    } else {
        (r == Ok::<(), u16>(()) && signed_by(secret, payload, headers)) || r == Err::<(), u16>(FORBIDDEN)
    }
}

/// How far, in seconds, svix lets a signing time lie from the clock, either way.
pub const SIGNATURE_TOLERANCE_SECS: i64 = 300;

/// svix's rule on a signing time `ts` at clock reading `now` (whole seconds
/// since the epoch): not before 1970, at most 300 seconds old, and at most 300
/// seconds ahead.
pub open spec fn svix_fresh(ts: int, now: int) -> bool {
    0 <= ts && now <= ts + SIGNATURE_TOLERANCE_SECS && ts <= now + SIGNATURE_TOLERANCE_SECS
}

/// What checking a notification answers at clock reading `now`: 500 where the
/// secret is unusable; otherwise success exactly when all three headers are
/// present, sign the payload under the secret, and carry a signing time within
/// svix's tolerance of `now`; 403 in every other case.
pub open spec fn authentication_outcome_at(
    secret: Seq<char>,
    payload: Seq<u8>,
    headers: SignatureHeaders,
    now: int,
    r: Result<(), u16>,
) -> bool {
    if !svix_accepts_secret(secret) {
        r == Err::<(), u16>(INTERNAL_SERVER_ERROR)
    } else {
        match (headers.msg_id, headers.timestamp, headers.signature) {
            (Some(i), Some(t), Some(s)) => if svix_signature_valid(secret, payload, i@, t@, s@)
                && (std_parse_i64(t@) matches Some(ts) && svix_fresh(ts, now)) {
                r == Ok::<(), u16>(())
            } else {
                r == Err::<(), u16>(FORBIDDEN)
            },
            _ => r == Err::<(), u16>(FORBIDDEN),
        }
    }
}

/// Checks a notification at clock reading `now` (whole seconds since the
/// epoch), as svix's `verify` does with its own reading.
pub fn authenticate_webhook_at(
    secret: &str,
    payload: &[u8],
    headers: &SignatureHeaders,
    now: i64,
) -> (r: Result<(), u16>)
    requires
        0 <= now <= i64::MAX - SIGNATURE_TOLERANCE_SECS,
    ensures
        authentication_outcome_at(secret@, payload@, *headers, now as int, r),
{
    if !svix_webhook(secret) {
        return Err(INTERNAL_SERVER_ERROR);
    }
    match (&headers.msg_id, &headers.timestamp, &headers.signature) {
        (Some(i), Some(t), Some(s)) => {
            let fresh = match parse_i64(t.as_str()) {
                Some(ts) => 0 <= ts && now - SIGNATURE_TOLERANCE_SECS <= ts && ts <= now
                    + SIGNATURE_TOLERANCE_SECS,
                None => false,
            };
            if fresh && svix_verify(secret, payload, i.as_str(), t.as_str(), s.as_str()) {
                Ok(())
            } else {
                Err(FORBIDDEN)
            }
        },
        _ => Err(FORBIDDEN),
    }
}

/// Checks that a notification comes from the mail service: 500 where the secret
/// itself is unusable, 403 where the signature does not hold or its signing
/// time is out of tolerance of the clock.
pub fn authenticate_webhook(secret: &str, payload: &[u8], headers: &SignatureHeaders) -> (r: Result<(), u16>)
    ensures
        authentication_outcome(secret@, payload@, *headers, r),
        exists|now: Timestamp|
            now.is_clock_reading() && authentication_outcome_at(secret@, payload@, *headers, now.secs as int, r),
{
    let now = Timestamp::now();
    authenticate_webhook_at(secret, payload, headers, now.secs)
}

/// What checking a notification whose body may not have been readable answers:
/// 400 without a body, else as `authentication_outcome` under the secret of its kind.
pub open spec fn check_outcome(
    secrets: WebhookSecrets,
    kind: WebhookKind,
    body: Option<Seq<u8>>,
    headers: SignatureHeaders,
    r: Result<(), u16>,
) -> bool {
    match body {
        None => r == Err::<(), u16>(BAD_REQUEST),
        Some(b) => authentication_outcome(secrets.secret_for_spec(kind)@, b, headers, r),
    }
}

/// Checks a notification whose body may not have been readable: 400 without a
/// body, else as `authenticate_webhook` with the secret of its kind.
pub fn check_webhook(
    secrets: &WebhookSecrets,
    kind: WebhookKind,
    body: Option<&[u8]>,
    headers: &SignatureHeaders,
) -> (r: Result<(), u16>)
    ensures
        check_outcome(
            *secrets,
            kind,
            match body {
                Some(b) => Some(b@),
                None => None,
            },
            *headers,
            r,
        ),
        exists|now: Timestamp|
            now.is_clock_reading() && match body {
                None => r == Err::<(), u16>(BAD_REQUEST),
                Some(b) => authentication_outcome_at(secrets.secret_for_spec(kind)@, b@, *headers, now.secs as int, r),
            },
{
    match body {
        None => {
            let ghost epoch = Timestamp { secs: 0, nanos: 0 };
            assert(epoch.is_clock_reading());
            Err(BAD_REQUEST)
        },
        Some(b) => authenticate_webhook(secrets.secret_for(kind).as_str(), b, headers),
    }
}

impl WebhookSecrets {
    /// The secret that signs a notification of this kind.
    pub open spec fn secret_for_spec(&self, kind: WebhookKind) -> String {
        match kind {
            WebhookKind::Delivered => self.delivered_secret,
            WebhookKind::Bounced => self.bounced_secret,
        }
    }
}

/// A notification of either kind is accepted only with a readable body, a usable
/// secret of its kind, and all three signature headers signing that body under
/// that secret; a readable body with a usable secret whose headers do not sign it
/// is answered 403.
pub proof fn law_accepted_notifications_are_authenticated(
    secrets: WebhookSecrets,
    kind: WebhookKind,
    body: Option<Seq<u8>>,
    headers: SignatureHeaders,
    r: Result<(), u16>,
)
    requires
        check_outcome(secrets, kind, body, headers, r),
    ensures
        r is Ok ==> (body matches Some(b) && svix_accepts_secret(secrets.secret_for_spec(kind)@)
            && signed_by(secrets.secret_for_spec(kind)@, b, headers)),
        (body matches Some(b) && svix_accepts_secret(secrets.secret_for_spec(kind)@)
            && !signed_by(secrets.secret_for_spec(kind)@, b, headers)) ==> r == Err::<(), u16>(FORBIDDEN),
{
}

/// At any clock reading, a notification is accepted exactly when its secret is
/// usable, all three headers are present, they sign its payload under the
/// secret, and their signing time reads as an integer within 300 seconds of the
/// clock; in particular a correctly signed, timely notification is accepted
/// whatever its payload, and a late or early one is refused with 403.
pub proof fn law_timely_signed_notifications_are_accepted(
    secret: Seq<char>,
    payload: Seq<u8>,
    headers: SignatureHeaders,
    now: int,
    r: Result<(), u16>,
)
    requires
        authentication_outcome_at(secret, payload, headers, now, r),
    ensures
        (r == Ok::<(), u16>(())) <==> (svix_accepts_secret(secret) && headers.msg_id is Some
            && headers.timestamp is Some && headers.signature is Some && svix_signature_valid(
            secret,
            payload,
            headers.msg_id->0@,
            headers.timestamp->0@,
            headers.signature->0@,
        ) && (std_parse_i64(headers.timestamp->0@) matches Some(ts) && 0 <= ts && now - 300 <= ts
            && ts <= now + 300)),
        svix_accepts_secret(secret) && r != Ok::<(), u16>(()) ==> r == Err::<(), u16>(FORBIDDEN),
        !svix_accepts_secret(secret) ==> r == Err::<(), u16>(INTERNAL_SERVER_ERROR),
{
}

} // verus!
