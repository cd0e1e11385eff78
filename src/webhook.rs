//! The webhook handler: it authenticates a provider call, replaces the
//! stored snapshot of the number, finds the subscribed users and hands out
//! one notification per user.
//!
//! The handler is a state machine. [`start`] checks the request; each later
//! [`step`] takes the outcome of the action last asked for and says what to
//! do next. Whoever drives it performs the actions (decoding, the store, the
//! notification channel) and answers with the matching event, until the
//! action is [`WebhookAction::Respond`].
#![allow(non_camel_case_types)]
use vstd::prelude::*;
use vstd::string::*;
use vstd::utf8::encode_utf8;
use crate::registry::{is_delivered, text_is};
use crate::signature::{authentication, header_bytes, verify_origin_body};
use crate::tracking_data_formats::tracking_data_database_form::TrackingData_DBF;
use crate::tracking_data_formats::tracking_data_webhook_update::{
    snapshot_of, PackageDataWebhook, TrackingData, TrackingResponse,
};

verus! {

/// Ties a user (by id hash) to a tracking number; only subscribed users are
/// told of updates.
#[derive(Debug, Clone, PartialEq)]
pub struct tracking_number_user_relation {
    pub tracking_number: String,
    pub carrier: Option<i32>,
    pub user_id_hash: String,
    pub is_subscribed: bool,
}

/// A user as stored.
#[derive(Debug, Clone, PartialEq)]
pub struct UserDatabaseForm {
    pub user_id: i64,
    pub user_id_hash: String,
    pub user_name: String,
    pub remaining_tracking_quota: i32,
}

/// One message to send to one recipient.
#[derive(Debug, Clone, PartialEq)]
pub struct Notification {
    pub user_id: i64,
    pub message: String,
    pub tracking_number: String,
}

/// The answer to the provider.
#[derive(Debug, Clone, PartialEq)]
pub enum WebhookReply {
    /// Processed; the body names the event.
    Processed(String),
    /// Turned away before any change.
    BadRequest,
    /// Not processed, or only in part; safe to send again.
    InternalServerError,
}

impl WebhookReply {
    /// The HTTP status of the reply.
    pub fn status_code(&self) -> (r: u16)
        ensures
            r == match self {
                WebhookReply::Processed(_) => 200u16,
                WebhookReply::BadRequest => 400u16,
                WebhookReply::InternalServerError => 500u16,
            },
    {
        match self {
            WebhookReply::Processed(_) => 200,
            WebhookReply::BadRequest => 400,
            WebhookReply::InternalServerError => 500,
        }
    }
}

/// Where the handling of one call stands.
#[derive(Debug, Clone, PartialEq)]
pub enum WebhookStage {
    /// The body is being decoded.
    Decoding,
    /// The status of the stored snapshot of the number is being read.
    CheckingPrevious { snapshot: TrackingData_DBF, message: String, ack: String },
    /// The stored snapshots of the number are being deleted; `notify` says
    /// whether the subscribers are to be told.
    Deleting { snapshot: TrackingData_DBF, message: String, ack: String, notify: bool },
    /// The new snapshot is being inserted.
    Inserting { number: String, message: String, ack: String, notify: bool },
    /// The subscribed relations of the number are being read.
    FindingRelations { number: String, message: String, ack: String },
    /// The users with these id hashes are being read.
    ResolvingUsers { hashes: Vec<String>, number: String, message: String, ack: String },
    /// The notifications are being sent.
    Notifying { ack: String },
    /// The reply has been given.
    Done,
}

/// The outcome of the action last asked for.
#[derive(Debug, Clone, PartialEq)]
pub enum WebhookEvent {
    /// The body as an event, or `None` where it is not one.
    Decoded(Option<TrackingResponse>),
    /// The latest status of the stored snapshot of the number; `None` where
    /// there is no snapshot, it has no status, or it could not be read.
    PreviousStatus(Option<String>),
    /// Whether the old snapshots were deleted.
    SnapshotsDeleted(bool),
    /// Whether the new snapshot was inserted.
    SnapshotInserted(bool),
    /// The relations found, or `None` where the lookup failed.
    RelationsFound(Option<Vec<tracking_number_user_relation>>),
    /// The users found, or `None` where the lookup failed.
    UsersFound(Option<Vec<UserDatabaseForm>>),
    /// For each notification, in order, whether it was delivered.
    Notified(Vec<bool>),
}

/// What the driver is to do next.
#[derive(Debug, Clone, PartialEq)]
pub enum WebhookAction {
    /// Decode this text as a webhook event.
    DecodeBody(String),
    /// Read the latest status of the stored snapshot of this number.
    FindPreviousStatus(String),
    /// Delete every stored snapshot of this number.
    DeleteSnapshots(String),
    /// Insert this snapshot.
    InsertSnapshot(TrackingData_DBF),
    /// Read the relations of this number that are subscribed.
    FindSubscribedRelations(String),
    /// Read the users with these id hashes.
    FindUsers(Vec<String>),
    /// Send all these notifications at once and wait for every outcome.
    SendNotifications(Vec<Notification>),
    /// Answer the provider.
    Respond(WebhookReply),
}

/// The text sent to subscribers: the number and the description of the
/// latest event.
pub open spec fn update_message(number: Seq<char>, description: Option<String>) -> Seq<char> {
    "Update on your order tracking: "@ + number + "\n"@ + match description {
        Some(d) => d@,
        None => Seq::empty(),
    }
}

/// The text sent to subscribers of `number` whose latest event has
/// `description`.
pub fn update_message_text(number: &str, description: &Option<String>) -> (r: String)
    ensures
        r@ == update_message(number@, *description),
{
    let mut m = String::from_str("Update on your order tracking: ");
    m.append(number);
    m.append("\n");
    match description {
        Some(d) => m.append(d.as_str()),
        None => {},
    }
    m
}

/// The text sent to the subscribers of `p`.
pub fn update_message_for(p: &PackageDataWebhook) -> (r: String)
    ensures
        r@ == update_message(p.number@, p.track_info.latest_event.description),
{
    update_message_text(p.number.as_str(), &p.track_info.latest_event.description)
}

/// The id hashes of the relations in `rels` that tie a subscribed user to
/// `number`, in order.
pub open spec fn subscribed_hashes(number: Seq<char>, rels: Seq<tracking_number_user_relation>) -> Seq<String>
    decreases rels.len(),
{
    if rels.len() == 0 {
        Seq::empty()
    } else {
        let rest = subscribed_hashes(number, rels.drop_last());
        let r = rels.last();
        if r.tracking_number@ == number && r.is_subscribed {
            rest.push(r.user_id_hash)
        } else {
            rest
        }
    }
}

/// The id hashes of the subscribers of `number` among `rels`. A relation
/// that is not subscribed, or is of another number, is left out.
pub fn subscribed_user_hashes(number: &String, rels: &Vec<tracking_number_user_relation>) -> (r: Vec<String>)
    ensures
        r@ == subscribed_hashes(number@, rels@),
{
    let mut hashes: Vec<String> = Vec::new();
    let n = rels.len();
    for i in 0..n
        invariant
            n == rels@.len(),
            hashes@ == subscribed_hashes(number@, rels@.subrange(0, i as int)),
    {
        let r = &rels[i];
        assert(rels@.subrange(0, i + 1).drop_last() == rels@.subrange(0, i as int));
        if r.is_subscribed && r.tracking_number == *number {
            hashes.push(r.user_id_hash.clone());
        }
    }
    assert(rels@.subrange(0, n as int) == rels@);
    hashes
}

/// The id of the first user in `users` whose id hash is `hash`.
pub open spec fn user_id_for(hash: Seq<char>, users: Seq<UserDatabaseForm>) -> Option<i64>
    decreases users.len(),
{
    if users.len() == 0 {
        None
    } else if users[0].user_id_hash@ == hash {
        Some(users[0].user_id)
    } else {
        user_id_for(hash, users.drop_first())
    }
}

/// The ids of the users with the id hashes `hashes`, in order of first
/// appearance; a hash that no user has is left out, and a user named by
/// several hashes is given once.
pub open spec fn user_ids_for(hashes: Seq<String>, users: Seq<UserDatabaseForm>) -> Seq<i64>
    decreases hashes.len(),
{
    if hashes.len() == 0 {
        Seq::empty()
    } else {
        let rest = user_ids_for(hashes.drop_last(), users);
        match user_id_for(hashes.last()@, users) {
            Some(id) => if rest.contains(id) {
                rest
            } else {
                rest.push(id)
            },
            None => rest,
        }
    }
}

/// Whether one of `hashes` names the user with id `id` among `users`.
pub open spec fn is_resolved(id: i64, hashes: Seq<String>, users: Seq<UserDatabaseForm>) -> bool {
    exists|i: int| 0 <= i < hashes.len() && user_id_for(#[trigger] hashes[i]@, users) == Some(id)
}

/// The recipients hold no id twice, and they are exactly the users that
/// one of the hashes names.
pub proof fn lemma_user_ids_for(hashes: Seq<String>, users: Seq<UserDatabaseForm>)
    ensures
        user_ids_for(hashes, users).no_duplicates(),
        forall|id: i64| #[trigger] user_ids_for(hashes, users).contains(id) <==> is_resolved(id, hashes, users),
    decreases hashes.len(),
{
    if hashes.len() > 0 {
        let init = hashes.drop_last();
        let rest = user_ids_for(init, users);
        lemma_user_ids_for(init, users);
        let last = hashes.len() - 1;
        assert forall|id: i64| is_resolved(id, hashes, users) <==> (is_resolved(id, init, users)
            || user_id_for(hashes[last]@, users) == Some(id)) by {
            if is_resolved(id, hashes, users) {
                let i = choose|i: int| 0 <= i < hashes.len() && user_id_for(#[trigger] hashes[i]@, users) == Some(id);
                if i < last {
                    assert(init[i] == hashes[i]);
                }
            }
            if is_resolved(id, init, users) {
                let i = choose|i: int| 0 <= i < init.len() && user_id_for(#[trigger] init[i]@, users) == Some(id);
                assert(hashes[i] == init[i]);
            }
        }
        match user_id_for(hashes.last()@, users) {
            Some(new_id) => {
                if !rest.contains(new_id) {
                    let r = rest.push(new_id);
                    assert forall|x: i64| r.contains(x) <==> (rest.contains(x) || x == new_id) by {
                        if r.contains(x) {
                            let k = choose|k: int| 0 <= k < r.len() && r[k] == x;
                            if k < rest.len() {
                                assert(rest[k] == x);
                            }
                        }
                        if rest.contains(x) {
                            let k = choose|k: int| 0 <= k < rest.len() && rest[k] == x;
                            assert(r[k] == x);
                        }
                        if x == new_id {
                            assert(r[rest.len() as int] == x);
                        }
                    }
                    assert forall|i: int, j: int| 0 <= i < r.len() && 0 <= j < r.len() && i != j implies r[i] != r[j] by {
                        if i < rest.len() && j < rest.len() {
                        } else if i < rest.len() {
                            assert(rest.contains(r[i]));
                        } else {
                            assert(rest.contains(r[j]));
                        }
                    }
                }
            },
            None => {},
        }
    }
}

/// The id of the user with id hash `hash`, if `users` holds one.
pub fn find_user_id(hash: &String, users: &Vec<UserDatabaseForm>) -> (r: Option<i64>)
    ensures
        r == user_id_for(hash@, users@),
{
    let n = users.len();
    let mut i: usize = 0;
    assert(users@.subrange(0, n as int) =~= users@);
    while i < n
        invariant
            n == users@.len(),
            0 <= i <= n,
            user_id_for(hash@, users@) == user_id_for(hash@, users@.subrange(i as int, n as int)),
        decreases n - i,
    {
        assert(users@.subrange(i as int, n as int).drop_first() == users@.subrange(i + 1, n as int));
        if users[i].user_id_hash == *hash {
            return Some(users[i].user_id);
        }
        i = i + 1;
    }
    None
}

/// The relation that ties the user with id hash `hash` to `number`.
pub open spec fn relation_of(number: String, hash: String, is_subscribed: bool) -> tracking_number_user_relation {
    tracking_number_user_relation { tracking_number: number, carrier: None, user_id_hash: hash, is_subscribed }
}

proof fn lemma_one_relation(number: String, hash: String, is_subscribed: bool)
    ensures
        subscribed_hashes(number@, seq![relation_of(number, hash, is_subscribed)])
            == if is_subscribed { seq![hash] } else { Seq::<String>::empty() },
{
    let rels = seq![relation_of(number, hash, is_subscribed)];
    assert(rels.drop_last() =~= Seq::<tracking_number_user_relation>::empty());
    assert(subscribed_hashes(number@, rels.drop_last()) == Seq::<String>::empty());
    assert(Seq::<String>::empty().push(hash) =~= seq![hash]);
}

proof fn lemma_one_hash(hash: String, users: Seq<UserDatabaseForm>)
    ensures
        user_ids_for(seq![hash], users) == match user_id_for(hash@, users) {
            Some(id) => seq![id],
            None => Seq::<i64>::empty(),
        },
{
    let hs = seq![hash];
    assert(hs.drop_last() =~= Seq::<String>::empty());
    assert(user_ids_for(hs.drop_last(), users) == Seq::<i64>::empty());
    assert(hs.last() == hash);
    if let Some(id) = user_id_for(hash@, users) {
        assert(!Seq::<i64>::empty().contains(id));
        assert(Seq::<i64>::empty().push(id) =~= seq![id]);
    }
}

/// A number with one subscribed relation, whose hash names a user, has
/// that user as its one recipient; unsubscribed, it has none.
pub proof fn lemma_single_subscriber(number: String, hash: String, users: Seq<UserDatabaseForm>, id: i64)
    requires
        user_id_for(hash@, users) == Some(id),
    ensures
        user_ids_for(subscribed_hashes(number@, seq![relation_of(number, hash, true)]), users) == seq![id],
        user_ids_for(subscribed_hashes(number@, seq![relation_of(number, hash, false)]), users).len() == 0,
{
    lemma_one_relation(number, hash, true);
    lemma_one_relation(number, hash, false);
    lemma_one_hash(hash, users);
    assert(user_ids_for(Seq::<String>::empty(), users) == Seq::<i64>::empty());
}

/// Of two subscribed relations of a number, one whose hash names a user and
/// one whose hash names nobody, the first gives the one recipient and the
/// second is dropped without error.
pub proof fn lemma_unknown_hash_dropped(
    number: String,
    known: String,
    unknown: String,
    users: Seq<UserDatabaseForm>,
    id: i64,
)
    requires
        user_id_for(known@, users) == Some(id),
        user_id_for(unknown@, users) is None,
    ensures
        user_ids_for(
            subscribed_hashes(number@, seq![relation_of(number, known, true), relation_of(number, unknown, true)]),
            users,
        ) == seq![id],
{
    let rels = seq![relation_of(number, known, true), relation_of(number, unknown, true)];
    assert(rels.drop_last() =~= seq![relation_of(number, known, true)]);
    lemma_one_relation(number, known, true);
    let h = subscribed_hashes(number@, rels);
    assert(h =~= seq![known, unknown]);
    assert(h.drop_last() =~= seq![known]);
    lemma_one_hash(known, users);
    assert(h.last() == unknown);
}

/// Whether `ids` holds `id`.
fn holds_id(ids: &Vec<i64>, id: i64) -> (r: bool)
    ensures
        r == ids@.contains(id),
{
    let n = ids.len();
    for i in 0..n
        invariant
            n == ids@.len(),
            forall|k: int| 0 <= k < i ==> ids@[k] != id,
    {
        if ids[i] == id {
            return true;
        }
    }
    false
}

/// The ids of the users with the id hashes `hashes`: each user that one of
/// the hashes names is given once, in order of first appearance; the other
/// hashes give nothing.
pub fn resolve_user_ids(hashes: &Vec<String>, users: &Vec<UserDatabaseForm>) -> (r: Vec<i64>)
    ensures
        r@ == user_ids_for(hashes@, users@),
        r@.no_duplicates(),
        forall|id: i64| #[trigger] r@.contains(id) <==> is_resolved(id, hashes@, users@),
{
    let mut ids: Vec<i64> = Vec::new();
    let n = hashes.len();
    for i in 0..n
        invariant
            n == hashes@.len(),
            ids@ == user_ids_for(hashes@.subrange(0, i as int), users@),
    {
        assert(hashes@.subrange(0, i + 1).drop_last() == hashes@.subrange(0, i as int));
        match find_user_id(&hashes[i], users) {
            Some(id) => {
                if !holds_id(&ids, id) {
                    ids.push(id);
                }
            },
            None => {},
        }
    }
    assert(hashes@.subrange(0, n as int) == hashes@);
    proof {
        lemma_user_ids_for(hashes@, users@);
    }
    ids
}

/// `jobs` holds one notification for each of `ids`, in order, each with
/// `message` and `number`.
pub open spec fn are_notifications(jobs: Seq<Notification>, ids: Seq<i64>, message: Seq<char>, number: Seq<char>) -> bool {
    &&& jobs.len() == ids.len()
    &&& forall|i: int| 0 <= i < ids.len() ==> {
        &&& (#[trigger] jobs[i]).user_id == ids[i]
        &&& jobs[i].message@ == message
        &&& jobs[i].tracking_number@ == number
    }
}

/// One notification for each recipient in `user_ids`, whatever becomes of
/// the others.
pub fn notifications_for(user_ids: &Vec<i64>, message: &String, number: &String) -> (r: Vec<Notification>)
    ensures
        are_notifications(r@, user_ids@, message@, number@),
{
    let mut jobs: Vec<Notification> = Vec::new();
    let n = user_ids.len();
    for i in 0..n
        invariant
            n == user_ids@.len(),
            are_notifications(jobs@, user_ids@.subrange(0, i as int), message@, number@),
    {
        jobs.push(Notification { user_id: user_ids[i], message: message.clone(), tracking_number: number.clone() });
    }
    assert(user_ids@.subrange(0, n as int) == user_ids@);
    jobs
}

/// The record of a fan-out: each recipient with whether its notification
/// was delivered.
pub open spec fn fan_out_record(jobs: Seq<Notification>, delivered: Seq<bool>) -> Seq<(i64, bool)> {
    Seq::new(jobs.len(), |i: int| (jobs[i].user_id, delivered[i]))
}

/// Pairs each notification's recipient with its outcome.
pub fn record_fan_out(jobs: &Vec<Notification>, delivered: &Vec<bool>) -> (r: Vec<(i64, bool)>)
    requires
        jobs@.len() == delivered@.len(),
    ensures
        r@ == fan_out_record(jobs@, delivered@),
{
    let mut record: Vec<(i64, bool)> = Vec::new();
    let n = jobs.len();
    for i in 0..n
        invariant
            n == jobs@.len(),
            n == delivered@.len(),
            record@ == fan_out_record(jobs@.subrange(0, i as int), delivered@.subrange(0, i as int)),
    {
        record.push((jobs[i].user_id, delivered[i]));
        assert(record@ =~= fan_out_record(jobs@.subrange(0, i + 1), delivered@.subrange(0, i + 1)));
    }
    assert(jobs@.subrange(0, n as int) == jobs@);
    assert(delivered@.subrange(0, n as int) == delivered@);
    record
}

/// A copy of a list of texts.
fn copy_texts(v: &Vec<String>) -> (r: Vec<String>)
    ensures
        r@ == v@,
{
    let mut out: Vec<String> = Vec::new();
    let n = v.len();
    for i in 0..n
        invariant
            n == v@.len(),
            out@ == v@.subrange(0, i as int),
    {
        out.push(v[i].clone());
        assert(out@ =~= v@.subrange(0, i + 1));
    }
    assert(v@.subrange(0, n as int) == v@);
    out
}

/// Begins handling a call with `body` and signature header `sign_header`:
/// an authentic body is to be decoded; any other call is answered 400.
pub fn start(body: &[u8], sign_header: Option<&[u8]>, secret: &str) -> (r: (WebhookStage, WebhookAction))
    ensures
        match authentication(body@, header_bytes(sign_header), encode_utf8(secret@)) {
            Ok(text) => match r {
                (WebhookStage::Decoding, WebhookAction::DecodeBody(t)) => t@ == text,
                _ => false,
            },
            Err(_) => r.0 == WebhookStage::Done && r.1 == WebhookAction::Respond(WebhookReply::BadRequest),
        },
{
    match verify_origin_body(body, sign_header, secret) {
        Ok(text) => (WebhookStage::Decoding, WebhookAction::DecodeBody(text)),
        Err(_) => (WebhookStage::Done, WebhookAction::Respond(WebhookReply::BadRequest)),
    }
}

/// The answer for a call that could not be completed.
pub open spec fn failed() -> (WebhookStage, WebhookAction) {
    (WebhookStage::Done, WebhookAction::Respond(WebhookReply::InternalServerError))
}

/// What `step` does with `stage` and `event`, giving `next`.
pub open spec fn is_step(stage: WebhookStage, event: WebhookEvent, next: (WebhookStage, WebhookAction)) -> bool {
    match stage {
        WebhookStage::Decoding => match event {
            WebhookEvent::Decoded(None) => next == (WebhookStage::Done, WebhookAction::Respond(WebhookReply::BadRequest)),
            WebhookEvent::Decoded(Some(u)) => match u.data {
                TrackingData::TrackingStopped(_) => next == (WebhookStage::Done, WebhookAction::Respond(WebhookReply::Processed(u.event))),
                TrackingData::PackageData(p) => match next {
                    (WebhookStage::CheckingPrevious { snapshot, message, ack }, WebhookAction::FindPreviousStatus(number)) => {
                        &&& number == p.number
                        &&& snapshot == snapshot_of(p)
                        &&& message@ == update_message(p.number@, p.track_info.latest_event.description)
                        &&& ack == u.event
                    },
                    _ => false,
                },
            },
            _ => next == failed(),
        },
        WebhookStage::CheckingPrevious { snapshot, message, ack } => match event {
            WebhookEvent::PreviousStatus(previous) => next == (
                WebhookStage::Deleting {
                    snapshot,
                    message,
                    ack,
                    notify: !is_stale(previous, snapshot.data.track_info.latest_status.status),
                },
                WebhookAction::DeleteSnapshots(snapshot.data.number),
            ),
            _ => next == failed(),
        },
        WebhookStage::Deleting { snapshot, message, ack, notify } => match event {
            WebhookEvent::SnapshotsDeleted(_) => next == (
                WebhookStage::Inserting { number: snapshot.data.number, message, ack, notify },
                WebhookAction::InsertSnapshot(snapshot),
            ),
            _ => next == failed(),
        },
        WebhookStage::Inserting { number, message, ack, notify } => match event {
            WebhookEvent::SnapshotInserted(true) => if notify {
                next == (
                    WebhookStage::FindingRelations { number, message, ack },
                    WebhookAction::FindSubscribedRelations(number),
                )
            } else {
                next == (WebhookStage::Done, WebhookAction::Respond(WebhookReply::Processed(ack)))
            },
            _ => next == failed(),
        },
        WebhookStage::FindingRelations { number, message, ack } => match event {
            WebhookEvent::RelationsFound(Some(rels)) => match next {
                (WebhookStage::ResolvingUsers { hashes, number: n2, message: m2, ack: a2 }, WebhookAction::FindUsers(h)) => {
                    &&& h@ == subscribed_hashes(number@, rels@)
                    &&& hashes@ == h@
                    &&& n2 == number
                    &&& m2 == message
                    &&& a2 == ack
                },
                _ => false,
            },
            _ => next == failed(),
        },
        WebhookStage::ResolvingUsers { hashes, number, message, ack } => match event {
            WebhookEvent::UsersFound(Some(users)) => match next {
                (WebhookStage::Notifying { ack: a2 }, WebhookAction::SendNotifications(jobs)) => {
                    &&& a2 == ack
                    &&& are_notifications(jobs@, user_ids_for(hashes@, users@), message@, number@)
                    &&& user_ids_for(hashes@, users@).no_duplicates()
                },
                _ => false,
            },
            _ => next == failed(),
        },
        WebhookStage::Notifying { ack } => match event {
            WebhookEvent::Notified(_) => next == (WebhookStage::Done, WebhookAction::Respond(WebhookReply::Processed(ack))),
            _ => next == failed(),
        },
        WebhookStage::Done => next == failed(),
    }
}

/// Whether an update with status `new` is stale: the stored snapshot says
/// that the package was delivered and the update says otherwise.
pub open spec fn is_stale(previous: Option<String>, new: Option<String>) -> bool {
    is_delivered(previous) && !is_delivered(new)
}

/// Whether an update with status `new` is stale, given the stored status
/// `previous`.
pub fn stale_update(previous: &Option<String>, new: &Option<String>) -> (r: bool)
    ensures
        r == is_stale(*previous, *new),
{
    let was_delivered = match previous {
        Some(s) => text_is(s.as_str(), "Delivered"),
        None => false,
    };
    let is_now_delivered = match new {
        Some(s) => text_is(s.as_str(), "Delivered"),
        None => false,
    };
    was_delivered && !is_now_delivered
}

/// Takes the outcome `event` of the action that `stage` asked for and says
/// what to do next. An update is stored whatever the stored status was, but
/// a stale one, which would take a delivered package back, tells nobody. A
/// failed deletion of old snapshots is passed over; a failed insertion or
/// lookup ends the call with 500; the outcome of the notifications does not
/// change the reply.
pub fn step(stage: WebhookStage, event: WebhookEvent) -> (r: (WebhookStage, WebhookAction))
    ensures
        is_step(stage, event, r),
{
    let fail = (WebhookStage::Done, WebhookAction::Respond(WebhookReply::InternalServerError));
    match stage {
        WebhookStage::Decoding => match event {
            WebhookEvent::Decoded(None) => (WebhookStage::Done, WebhookAction::Respond(WebhookReply::BadRequest)),
            WebhookEvent::Decoded(Some(u)) => match u.data {
                TrackingData::TrackingStopped(_) => (WebhookStage::Done, WebhookAction::Respond(WebhookReply::Processed(u.event))),
                TrackingData::PackageData(p) => {
                    let message = update_message_for(&p);
                    let number = p.number.clone();
                    let snapshot = match p.convert_to_tracking_data_dbf() {
                        Some(s) => s,
                        None => return fail,
                    };
                    (WebhookStage::CheckingPrevious { snapshot, message, ack: u.event }, WebhookAction::FindPreviousStatus(number))
                },
            },
            _ => fail,
        },
        WebhookStage::CheckingPrevious { snapshot, message, ack } => match event {
            WebhookEvent::PreviousStatus(previous) => {
                let notify = !stale_update(&previous, &snapshot.data.track_info.latest_status.status);
                let number = snapshot.data.number.clone();
                (WebhookStage::Deleting { snapshot, message, ack, notify }, WebhookAction::DeleteSnapshots(number))
            },
            _ => fail,
        },
        WebhookStage::Deleting { snapshot, message, ack, notify } => match event {
            WebhookEvent::SnapshotsDeleted(_) => {
                let number = snapshot.data.number.clone();
                (WebhookStage::Inserting { number, message, ack, notify }, WebhookAction::InsertSnapshot(snapshot))
            },
            _ => fail,
        },
        WebhookStage::Inserting { number, message, ack, notify } => match event {
            WebhookEvent::SnapshotInserted(true) => {
                if notify {
                    let lookup = number.clone();
                    (WebhookStage::FindingRelations { number, message, ack }, WebhookAction::FindSubscribedRelations(lookup))
                } else {
                    (WebhookStage::Done, WebhookAction::Respond(WebhookReply::Processed(ack)))
                }
            },
            _ => fail,
        },
        WebhookStage::FindingRelations { number, message, ack } => match event {
            WebhookEvent::RelationsFound(Some(rels)) => {
                let hashes = subscribed_user_hashes(&number, &rels);
                let lookup = copy_texts(&hashes);
                (WebhookStage::ResolvingUsers { hashes, number, message, ack }, WebhookAction::FindUsers(lookup))
            },
            _ => fail,
        },
        WebhookStage::ResolvingUsers { hashes, number, message, ack } => match event {
            WebhookEvent::UsersFound(Some(users)) => {
                let ids = resolve_user_ids(&hashes, &users);
                let jobs = notifications_for(&ids, &message, &number);
                (WebhookStage::Notifying { ack }, WebhookAction::SendNotifications(jobs))
            },
            _ => fail,
        },
        WebhookStage::Notifying { ack } => match event {
            WebhookEvent::Notified(_) => (WebhookStage::Done, WebhookAction::Respond(WebhookReply::Processed(ack))),
            _ => fail,
        },
        WebhookStage::Done => fail,
    }
}

/// What remains of the snapshot store `store` once every snapshot of
/// `number` is deleted.
pub open spec fn without_number(store: Seq<TrackingData_DBF>, number: Seq<char>) -> Seq<TrackingData_DBF>
    decreases store.len(),
{
    if store.len() == 0 {
        store
    } else {
        let rest = without_number(store.drop_last(), number);
        if store.last().data.number@ == number {
            rest
        } else {
            rest.push(store.last())
        }
    }
}

/// How many snapshots of `number` the store holds.
pub open spec fn snapshot_count(store: Seq<TrackingData_DBF>, number: Seq<char>) -> nat
    decreases store.len(),
{
    if store.len() == 0 {
        0
    } else {
        snapshot_count(store.drop_last(), number) + if store.last().data.number@ == number {
            1nat
        } else {
            0nat
        }
    }
}

/// The store after the two writes that the handler asks for with
/// `snapshot`: every snapshot of its number deleted, then it inserted.
pub open spec fn replace_snapshot(store: Seq<TrackingData_DBF>, snapshot: TrackingData_DBF) -> Seq<TrackingData_DBF> {
    without_number(store, snapshot.data.number@).push(snapshot)
}

proof fn lemma_without_number_count(store: Seq<TrackingData_DBF>, number: Seq<char>)
    ensures
        snapshot_count(without_number(store, number), number) == 0,
    decreases store.len(),
{
    if store.len() > 0 {
        let rest = without_number(store.drop_last(), number);
        lemma_without_number_count(store.drop_last(), number);
        assert(rest.push(store.last()).drop_last() == rest);
    }
}

proof fn lemma_without_number_twice(store: Seq<TrackingData_DBF>, number: Seq<char>)
    ensures
        without_number(without_number(store, number), number) == without_number(store, number),
    decreases store.len(),
{
    if store.len() > 0 {
        let rest = without_number(store.drop_last(), number);
        lemma_without_number_twice(store.drop_last(), number);
        assert(rest.push(store.last()).drop_last() == rest);
    }
}

/// Once an update of a number has been reconciled, with its deletion and
/// insertion done, the store holds exactly one snapshot of that number,
/// whatever it held before.
pub proof fn lemma_one_snapshot_after_update(store: Seq<TrackingData_DBF>, update: PackageDataWebhook)
    ensures
        snapshot_count(replace_snapshot(store, snapshot_of(update)), update.number@) == 1,
{
    let rest = without_number(store, update.number@);
    lemma_without_number_count(store, update.number@);
    assert(rest.push(snapshot_of(update)).drop_last() == rest);
}

/// Reconciling the same update twice in a row leaves the store as
/// reconciling it once does.
pub proof fn lemma_update_idempotent(store: Seq<TrackingData_DBF>, update: PackageDataWebhook)
    ensures
        replace_snapshot(replace_snapshot(store, snapshot_of(update)), snapshot_of(update))
            == replace_snapshot(store, snapshot_of(update)),
{
    let n = update.number@;
    let rest = without_number(store, n);
    lemma_without_number_twice(store, n);
    assert(rest.push(snapshot_of(update)).drop_last() == rest);
}

/// The store after the driver has performed `action` with success.
pub open spec fn store_after(store: Seq<TrackingData_DBF>, action: WebhookAction) -> Seq<TrackingData_DBF> {
    match action {
        WebhookAction::DeleteSnapshots(number) => without_number(store, number@),
        WebhookAction::InsertSnapshot(snapshot) => store.push(snapshot),
        _ => store,
    }
}

/// Handling an update of a number writes the store twice: `checked` is
/// what [`step`] asks for once the stored status is read (the deletion),
/// `second` what it asks for once the deletion is done (the insertion).
/// Performed on any store, the two leave exactly one snapshot of the
/// number, the update's own.
pub proof fn lemma_handler_leaves_one_snapshot(
    store: Seq<TrackingData_DBF>,
    update: TrackingResponse,
    previous: Option<String>,
    first: (WebhookStage, WebhookAction),
    checked: (WebhookStage, WebhookAction),
    second: (WebhookStage, WebhookAction),
)
    requires
        update.data is PackageData,
        is_step(WebhookStage::Decoding, WebhookEvent::Decoded(Some(update)), first),
        is_step(first.0, WebhookEvent::PreviousStatus(previous), checked),
        is_step(checked.0, WebhookEvent::SnapshotsDeleted(true), second),
    ensures
        ({
            let p = update.data->PackageData_0;
            let after = store_after(store_after(store_after(store, first.1), checked.1), second.1);
            &&& after == replace_snapshot(store, snapshot_of(p))
            &&& snapshot_count(after, p.number@) == 1
            &&& after.last() == snapshot_of(p)
        }),
{
    lemma_one_snapshot_after_update(store, update.data->PackageData_0);
}

/// Handling the same update twice in a row leaves the store as handling it
/// once does.
pub proof fn lemma_handler_idempotent(
    store: Seq<TrackingData_DBF>,
    update: TrackingResponse,
    previous: Option<String>,
    first: (WebhookStage, WebhookAction),
    checked: (WebhookStage, WebhookAction),
    second: (WebhookStage, WebhookAction),
)
    requires
        update.data is PackageData,
        is_step(WebhookStage::Decoding, WebhookEvent::Decoded(Some(update)), first),
        is_step(first.0, WebhookEvent::PreviousStatus(previous), checked),
        is_step(checked.0, WebhookEvent::SnapshotsDeleted(true), second),
    ensures
        ({
            let once = store_after(store_after(store_after(store, first.1), checked.1), second.1);
            store_after(store_after(store_after(once, first.1), checked.1), second.1) == once
        }),
{
    lemma_update_idempotent(store, update.data->PackageData_0);
}

/// A stale update is still stored, but the call ends right after the
/// insertion: nobody is notified and the reply is 200.
pub proof fn lemma_stale_update_notifies_nobody(
    update: TrackingResponse,
    previous: Option<String>,
    first: (WebhookStage, WebhookAction),
    checked: (WebhookStage, WebhookAction),
    second: (WebhookStage, WebhookAction),
    third: (WebhookStage, WebhookAction),
)
    requires
        update.data is PackageData,
        is_stale(previous, update.data->PackageData_0.track_info.latest_status.status),
        is_step(WebhookStage::Decoding, WebhookEvent::Decoded(Some(update)), first),
        is_step(first.0, WebhookEvent::PreviousStatus(previous), checked),
        is_step(checked.0, WebhookEvent::SnapshotsDeleted(true), second),
        is_step(second.0, WebhookEvent::SnapshotInserted(true), third),
    ensures
        second.1 == WebhookAction::InsertSnapshot(snapshot_of(update.data->PackageData_0)),
        third == (WebhookStage::Done, WebhookAction::Respond(WebhookReply::Processed(update.event))),
{
}

/// A notification that fails takes nothing from the others: the fan-out
/// records an outcome for every recipient, in order, the failing one
/// included.
pub proof fn lemma_fan_out_covers_every_recipient(
    ids: Seq<i64>,
    jobs: Seq<Notification>,
    message: Seq<char>,
    number: Seq<char>,
    delivered: Seq<bool>,
    failing: int,
)
    requires
        are_notifications(jobs, ids, message, number),
        delivered.len() == ids.len(),
        0 <= failing < ids.len(),
        !delivered[failing],
    ensures
        fan_out_record(jobs, delivered).len() == ids.len(),
        forall|i: int| 0 <= i < ids.len() && i != failing ==> #[trigger] fan_out_record(jobs, delivered)[i] == (ids[i], delivered[i]),
        fan_out_record(jobs, delivered)[failing] == (ids[failing], false),
{
}

} // verus!
