use sha2::Digest;
use teletrack::registry::user_id_hash;
use teletrack::tracking_data_formats::tracking_data_base::{
    carrier_info, delivery_estimate, event, misc_info, milestone, provider, time_metrics,
    time_raw, tracking_details, Address, Coordinates, ShippingInfo, Status, TrackInfo,
};
use teletrack::tracking_data_formats::tracking_data_database_form::TrackingData_DBF;
use teletrack::tracking_data_formats::tracking_data_webhook_update::{
    PackageDataWebhook, TrackingData, TrackingResponse, TrackingStopped,
};
use teletrack::webhook::{
    notifications_for, resolve_user_ids, stale_update, record_fan_out, start, step, tracking_number_user_relation,
    Notification, UserDatabaseForm, WebhookAction, WebhookEvent, WebhookReply, WebhookStage,
};

const SECRET: &str = "s3cr3t";

fn text(s: &str) -> Option<String> {
    Some(s.to_string())
}

fn address() -> Address {
    Address {
        country: text("CN"),
        state: None,
        city: text("Shenzhen"),
        street: None,
        postal_code: None,
        coordinates: Coordinates { longitude: Some(114.05f64.to_bits()), latitude: None },
    }
}

fn raw_time() -> time_raw {
    time_raw { date: text("2024-05-01"), time: text("10:00"), timezone: text("+08:00") }
}

fn an_event(description: &str) -> event {
    event {
        time_iso: text("2024-05-01T10:00:00+08:00"),
        time_utc: text("2024-05-01T02:00:00Z"),
        time_raw: raw_time(),
        description: text(description),
        location: text("Shenzhen"),
        stage: text("InTransit"),
        sub_status: text("InTransit_Other"),
        address: address(),
    }
}

fn track_info(description: &str, status: &str) -> TrackInfo {
    TrackInfo {
        lastGatherTime: None,
        shipping_info: ShippingInfo { shipper_address: address(), recipient_address: address() },
        latest_status: Status { status: text(status), sub_status: None, sub_status_descr: None },
        latest_event: an_event(description),
        time_metrics: time_metrics {
            days_after_order: Some(3),
            days_of_transit: Some(2),
            days_of_transit_done: None,
            days_after_last_update: Some(0),
            estimated_delivery_date: delivery_estimate { source: None, from: None, to: None },
        },
        milestone: vec![milestone {
            key_stage: text("PickedUp"),
            time_iso: None,
            time_utc: None,
            time_raw: raw_time(),
        }],
        misc_info: misc_info {
            risk_factor: 0,
            service_type: None,
            weight_raw: None,
            weight_kg: None,
            pieces: None,
            dimensions: None,
            customer_number: None,
            reference_number: None,
            local_number: None,
            local_provider: None,
            local_key: None,
        },
        tracking: tracking_details {
            providers_hash: Some(7),
            providers: vec![provider {
                provider: carrier_info {
                    key: Some(3011),
                    name: text("China Post"),
                    alias: None,
                    tel: None,
                    homepage: None,
                },
                provider_lang: None,
                service_type: None,
                latest_sync_status: None,
                latest_sync_time: None,
                events_hash: None,
                events: vec![an_event(description), an_event("Accepted")],
            }],
        },
    }
}

fn package(number: &str, description: &str) -> PackageDataWebhook {
    PackageDataWebhook {
        number: number.to_string(),
        carrier: 3011,
        param: None,
        tag: text("order-7"),
        track_info: track_info(description, "InTransit"),
    }
}

fn update(number: &str, description: &str) -> TrackingResponse {
    TrackingResponse {
        event: "TRACKING_UPDATED".to_string(),
        data: TrackingData::PackageData(package(number, description)),
    }
}

fn stopped(number: &str) -> TrackingResponse {
    TrackingResponse {
        event: "TRACKING_STOPPED".to_string(),
        data: TrackingData::TrackingStopped(TrackingStopped {
            number: number.to_string(),
            carrier: 3011,
            param: None,
            tag: None,
        }),
    }
}

fn sign(body: &[u8], secret: &str) -> String {
    let mut m = body.to_vec();
    m.push(b'/');
    m.extend_from_slice(secret.as_bytes());
    hex::encode(sha2::Sha256::digest(&m))
}

fn relation(number: &str, hash: &str, subscribed: bool) -> tracking_number_user_relation {
    tracking_number_user_relation {
        tracking_number: number.to_string(),
        carrier: None,
        user_id_hash: hash.to_string(),
        is_subscribed: subscribed,
    }
}

fn user(id: i64) -> UserDatabaseForm {
    UserDatabaseForm {
        user_id: id,
        user_id_hash: user_id_hash(id),
        user_name: format!("user{}", id),
        remaining_tracking_quota: 4,
    }
}

/// Everything that a run of the handler did, with the store that it left.
struct Run {
    reply: WebhookReply,
    store: Vec<TrackingData_DBF>,
    sent: Vec<Notification>,
    store_writes: usize,
}

/// Drives the handler against an in-memory store; `failing` names a
/// recipient whose notification fails.
fn run(
    store: Vec<TrackingData_DBF>,
    relations: &[tracking_number_user_relation],
    users: &[UserDatabaseForm],
    body: &[u8],
    header: Option<&[u8]>,
    decoded: Option<TrackingResponse>,
    failing: Option<i64>,
) -> Run {
    let mut store = store;
    let mut sent = Vec::new();
    let mut store_writes = 0;
    let (mut stage, mut action) = start(body, header, SECRET);
    loop {
        let event = match action {
            WebhookAction::Respond(reply) => {
                assert_eq!(stage, WebhookStage::Done);
                return Run { reply, store, sent, store_writes };
            }
            WebhookAction::DecodeBody(t) => {
                assert_eq!(t.as_bytes(), body);
                WebhookEvent::Decoded(decoded.clone())
            }
            WebhookAction::FindPreviousStatus(n) => WebhookEvent::PreviousStatus(
                store
                    .iter()
                    .find(|s| s.data.number == n)
                    .and_then(|s| s.data.track_info.latest_status.status.clone()),
            ),
            WebhookAction::DeleteSnapshots(n) => {
                store_writes += 1;
                store.retain(|s| s.data.number != n);
                WebhookEvent::SnapshotsDeleted(true)
            }
            WebhookAction::InsertSnapshot(s) => {
                store_writes += 1;
                store.push(s);
                WebhookEvent::SnapshotInserted(true)
            }
            WebhookAction::FindSubscribedRelations(n) => WebhookEvent::RelationsFound(Some(
                relations
                    .iter()
                    .filter(|r| r.tracking_number == n && r.is_subscribed)
                    .cloned()
                    .collect(),
            )),
            WebhookAction::FindUsers(hashes) => WebhookEvent::UsersFound(Some(
                users.iter().filter(|u| hashes.contains(&u.user_id_hash)).cloned().collect(),
            )),
            WebhookAction::SendNotifications(jobs) => {
                let delivered: Vec<bool> = jobs.iter().map(|j| Some(j.user_id) != failing).collect();
                let record = record_fan_out(&jobs, &delivered);
                assert_eq!(record.len(), jobs.len());
                sent.extend(jobs);
                WebhookEvent::Notified(delivered)
            }
        };
        let next = step(stage, event);
        stage = next.0;
        action = next.1;
    }
}

const NUMBER: &str = "RR123456789CN";

fn body_of(number: &str) -> Vec<u8> {
    format!("{{\"event\":\"TRACKING_UPDATED\",\"data\":{{\"number\":\"{}\"}}}}", number).into_bytes()
}

#[test]
fn scenario_subscribed_user_is_notified() {
    let h1 = user_id_hash(1001);
    let body = body_of(NUMBER);
    let sig = sign(&body, SECRET);
    let old = package(NUMBER, "Old event").convert_to_tracking_data_dbf().unwrap();
    let r = run(
        vec![old],
        &[relation(NUMBER, &h1, true)],
        &[user(1001), user(2002)],
        &body,
        Some(sig.as_bytes()),
        Some(update(NUMBER, "Arrived at sorting center")),
        None,
    );
    assert_eq!(r.reply, WebhookReply::Processed("TRACKING_UPDATED".to_string()));
    assert_eq!(r.reply.status_code(), 200);
    assert_eq!(r.store.len(), 1);
    assert_eq!(
        r.store[0].data.track_info.latest_event.description,
        text("Arrived at sorting center")
    );
    assert_eq!(r.sent.len(), 1);
    assert_eq!(r.sent[0].user_id, 1001);
    assert_eq!(r.sent[0].tracking_number, NUMBER);
    assert_eq!(
        r.sent[0].message,
        "Update on your order tracking: RR123456789CN\nArrived at sorting center"
    );
}

#[test]
fn scenario_unsubscribed_user_is_not_notified() {
    let h1 = user_id_hash(1001);
    let body = body_of(NUMBER);
    let sig = sign(&body, SECRET);
    let old = package(NUMBER, "Old event").convert_to_tracking_data_dbf().unwrap();
    let r = run(
        vec![old],
        &[relation(NUMBER, &h1, false)],
        &[user(1001)],
        &body,
        Some(sig.as_bytes()),
        Some(update(NUMBER, "Arrived at sorting center")),
        None,
    );
    assert_eq!(r.reply.status_code(), 200);
    assert_eq!(r.store.len(), 1);
    assert_eq!(
        r.store[0].data.track_info.latest_event.description,
        text("Arrived at sorting center")
    );
    assert_eq!(r.sent.len(), 0);
}

#[test]
fn scenario_missing_signature_is_rejected() {
    let h1 = user_id_hash(1001);
    let body = body_of(NUMBER);
    let old = package(NUMBER, "Old event").convert_to_tracking_data_dbf().unwrap();
    let r = run(
        vec![old.clone()],
        &[relation(NUMBER, &h1, true)],
        &[user(1001)],
        &body,
        None,
        Some(update(NUMBER, "Arrived at sorting center")),
        None,
    );
    assert_eq!(r.reply, WebhookReply::BadRequest);
    assert_eq!(r.reply.status_code(), 400);
    assert_eq!(r.store, vec![old]);
    assert_eq!(r.store_writes, 0);
    assert!(r.sent.is_empty());
}

#[test]
fn scenario_unresolvable_hash_is_dropped() {
    let h1 = user_id_hash(1001);
    let orphan = user_id_hash(9009);
    let body = body_of(NUMBER);
    let sig = sign(&body, SECRET);
    let r = run(
        vec![],
        &[relation(NUMBER, &h1, true), relation(NUMBER, &orphan, true)],
        &[user(1001)],
        &body,
        Some(sig.as_bytes()),
        Some(update(NUMBER, "Out for delivery")),
        None,
    );
    assert_eq!(r.reply.status_code(), 200);
    assert_eq!(r.store.len(), 1);
    assert_eq!(r.store_writes, 2);
    assert_eq!(r.sent.len(), 1);
    assert_eq!(r.sent[0].user_id, 1001);
}

#[test]
fn scenario_stop_event_changes_nothing() {
    let h1 = user_id_hash(1001);
    let body = body_of(NUMBER);
    let sig = sign(&body, SECRET);
    let old = package(NUMBER, "Old event").convert_to_tracking_data_dbf().unwrap();
    let r = run(
        vec![old.clone()],
        &[relation(NUMBER, &h1, true)],
        &[user(1001)],
        &body,
        Some(sig.as_bytes()),
        Some(stopped(NUMBER)),
        None,
    );
    assert_eq!(r.reply, WebhookReply::Processed("TRACKING_STOPPED".to_string()));
    assert_eq!(r.reply.status_code(), 200);
    assert_eq!(r.store, vec![old]);
    assert_eq!(r.store_writes, 0);
    assert!(r.sent.is_empty());
}

#[test]
fn one_snapshot_per_number_after_update() {
    let body = body_of(NUMBER);
    let sig = sign(&body, SECRET);
    let a = package(NUMBER, "first").convert_to_tracking_data_dbf().unwrap();
    let b = package(NUMBER, "second").convert_to_tracking_data_dbf().unwrap();
    let other = package("LX000000001CN", "other").convert_to_tracking_data_dbf().unwrap();
    let r = run(
        vec![a, other.clone(), b],
        &[],
        &[],
        &body,
        Some(sig.as_bytes()),
        Some(update(NUMBER, "third")),
        None,
    );
    let mine: Vec<_> = r.store.iter().filter(|s| s.data.number == NUMBER).collect();
    assert_eq!(mine.len(), 1);
    assert_eq!(mine[0].data.track_info.latest_event.description, text("third"));
    assert!(r.store.contains(&other));
}

#[test]
fn reconciling_twice_equals_once() {
    let body = body_of(NUMBER);
    let sig = sign(&body, SECRET);
    let other = package("LX000000001CN", "other").convert_to_tracking_data_dbf().unwrap();
    let once = run(vec![other.clone()], &[], &[], &body, Some(sig.as_bytes()), Some(update(NUMBER, "x")), None);
    let twice = run(once.store.clone(), &[], &[], &body, Some(sig.as_bytes()), Some(update(NUMBER, "x")), None);
    assert_eq!(once.store, twice.store);
}

#[test]
fn failing_recipient_does_not_shrink_fan_out() {
    let hashes: Vec<String> = [1001, 1002, 1003].iter().map(|i| user_id_hash(*i)).collect();
    let rels: Vec<_> = hashes.iter().map(|h| relation(NUMBER, h, true)).collect();
    let body = body_of(NUMBER);
    let sig = sign(&body, SECRET);
    let r = run(
        vec![],
        &rels,
        &[user(1001), user(1002), user(1003)],
        &body,
        Some(sig.as_bytes()),
        Some(update(NUMBER, "x")),
        Some(1002),
    );
    assert_eq!(r.reply.status_code(), 200);
    let ids: Vec<i64> = r.sent.iter().map(|n| n.user_id).collect();
    assert_eq!(ids, vec![1001, 1002, 1003]);
}

#[test]
fn fan_out_record_pairs_each_recipient_with_its_outcome() {
    let jobs = notifications_for(&vec![5, 6, 7], &"m".to_string(), &NUMBER.to_string());
    assert_eq!(jobs.len(), 3);
    assert!(jobs.iter().all(|j| j.message == "m" && j.tracking_number == NUMBER));
    let record = record_fan_out(&jobs, &vec![true, false, true]);
    assert_eq!(record, vec![(5, true), (6, false), (7, true)]);
}

#[test]
fn undecodable_body_is_rejected() {
    let body = b"not json".to_vec();
    let sig = sign(&body, SECRET);
    let r = run(vec![], &[], &[], &body, Some(sig.as_bytes()), None, None);
    assert_eq!(r.reply, WebhookReply::BadRequest);
    assert_eq!(r.store_writes, 0);
}

#[test]
fn failed_insert_gives_internal_error_and_no_fan_out() {
    let body = body_of(NUMBER);
    let sig = sign(&body, SECRET);
    let (s, a) = start(&body, Some(sig.as_bytes()), SECRET);
    assert!(matches!(a, WebhookAction::DecodeBody(_)));
    let (s, a) = step(s, WebhookEvent::Decoded(Some(update(NUMBER, "x"))));
    assert_eq!(a, WebhookAction::FindPreviousStatus(NUMBER.to_string()));
    let (s, a) = step(s, WebhookEvent::PreviousStatus(None));
    assert_eq!(a, WebhookAction::DeleteSnapshots(NUMBER.to_string()));
    // a failed deletion is passed over
    let (s, a) = step(s, WebhookEvent::SnapshotsDeleted(false));
    assert!(matches!(a, WebhookAction::InsertSnapshot(_)));
    let (s, a) = step(s, WebhookEvent::SnapshotInserted(false));
    assert_eq!(s, WebhookStage::Done);
    assert_eq!(a, WebhookAction::Respond(WebhookReply::InternalServerError));
    assert_eq!(WebhookReply::InternalServerError.status_code(), 500);
}

#[test]
fn failed_lookup_gives_internal_error() {
    let stage = WebhookStage::FindingRelations {
        number: NUMBER.to_string(),
        message: "m".to_string(),
        ack: "TRACKING_UPDATED".to_string(),
    };
    let (s, a) = step(stage, WebhookEvent::RelationsFound(None));
    assert_eq!(s, WebhookStage::Done);
    assert_eq!(a, WebhookAction::Respond(WebhookReply::InternalServerError));
}

#[test]
fn event_out_of_turn_gives_internal_error() {
    let (s, a) = step(WebhookStage::Decoding, WebhookEvent::SnapshotInserted(true));
    assert_eq!(s, WebhookStage::Done);
    assert_eq!(a, WebhookAction::Respond(WebhookReply::InternalServerError));
}

fn with_status(number: &str, description: &str, status: &str) -> PackageDataWebhook {
    let mut p = package(number, description);
    p.track_info.latest_status.status = text(status);
    p
}

#[test]
fn duplicate_relations_notify_once() {
    let h1 = user_id_hash(1001);
    let body = body_of(NUMBER);
    let sig = sign(&body, SECRET);
    let r = run(
        vec![],
        &[relation(NUMBER, &h1, true), relation(NUMBER, &h1, true)],
        &[user(1001)],
        &body,
        Some(sig.as_bytes()),
        Some(update(NUMBER, "x")),
        None,
    );
    assert_eq!(r.reply.status_code(), 200);
    assert_eq!(r.sent.len(), 1);
    assert_eq!(r.sent[0].user_id, 1001);
}

#[test]
fn resolution_gives_each_user_once() {
    let users = vec![user(1), user(2)];
    let hashes = vec![user_id_hash(2), user_id_hash(9), user_id_hash(1), user_id_hash(2), user_id_hash(1)];
    assert_eq!(resolve_user_ids(&hashes, &users), vec![2, 1]);
    assert_eq!(resolve_user_ids(&vec![], &users), Vec::<i64>::new());
}

#[test]
fn stale_update_after_delivery_is_stored_but_not_sent() {
    let h1 = user_id_hash(1001);
    let body = body_of(NUMBER);
    let sig = sign(&body, SECRET);
    let old = with_status(NUMBER, "Delivered to recipient", "Delivered").convert_to_tracking_data_dbf().unwrap();
    let late = TrackingResponse {
        event: "TRACKING_UPDATED".to_string(),
        data: TrackingData::PackageData(with_status(NUMBER, "In transit", "InTransit")),
    };
    let r = run(vec![old], &[relation(NUMBER, &h1, true)], &[user(1001)], &body, Some(sig.as_bytes()), Some(late), None);
    assert_eq!(r.reply, WebhookReply::Processed("TRACKING_UPDATED".to_string()));
    assert_eq!(r.store.len(), 1);
    assert_eq!(r.store[0].data.track_info.latest_status.status, text("InTransit"));
    assert!(r.sent.is_empty());
}

#[test]
fn delivery_after_delivery_is_sent() {
    let h1 = user_id_hash(1001);
    let body = body_of(NUMBER);
    let sig = sign(&body, SECRET);
    let old = with_status(NUMBER, "Delivered", "Delivered").convert_to_tracking_data_dbf().unwrap();
    let again = TrackingResponse {
        event: "TRACKING_UPDATED".to_string(),
        data: TrackingData::PackageData(with_status(NUMBER, "Delivered, signed", "Delivered")),
    };
    let r = run(vec![old], &[relation(NUMBER, &h1, true)], &[user(1001)], &body, Some(sig.as_bytes()), Some(again), None);
    assert_eq!(r.sent.len(), 1);
}

#[test]
fn staleness_rule() {
    assert!(stale_update(&text("Delivered"), &text("InTransit")));
    assert!(stale_update(&text("Delivered"), &None));
    assert!(!stale_update(&text("Delivered"), &text("Delivered")));
    assert!(!stale_update(&text("InTransit"), &text("InTransit")));
    assert!(!stale_update(&None, &text("InTransit")));
}
