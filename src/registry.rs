//! Users, their relations to tracking numbers, and the rules that the
//! registration, stop, retrack and delete requests keep: a user is known by
//! a digest of their id, a relation is unique per number and user, the
//! tracking quota never goes below zero, and a delivered package is never
//! tracked again.
use vstd::prelude::*;
use vstd::utf8::*;
use crate::signature::{constant_time_eq, hex_of, sha256_of};
use crate::trackingapi::tracking_error;
use crate::tracking_data_formats::tracking_data_database_form::TrackingData_DBF;
use crate::webhook::UserDatabaseForm;

verus! {

broadcast use {encode_utf8_decode_utf8};

/// The tracking quota of a new user.
pub const DEFAULT_TRACKING_QUOTA: i32 = 4;

/// Why a request about a user failed.
#[derive(Debug, Clone, Copy, PartialEq, Eq, Structural)]
pub enum UserCheckError {
    InvalidHeader,
    MissingHeader,
    UserNotFound,
    DatabaseError,
    UserAlreadyExists,
}

/// The refusals that clients are expected to handle, each with its own
/// status code.
#[derive(Debug, Clone, Copy, PartialEq, Eq, Structural)]
pub enum ExpectedError {
    /// The user is not known yet and is to be created first.
    UserNotFound,
    /// The user to be created exists already.
    UserAlreadyExists,
    /// The user has no relation to the number.
    NoRelation,
    /// The provider cannot tell the carrier: register again with one.
    CarrierRequired,
    /// The package was delivered and cannot be tracked again.
    AlreadyDelivered,
    /// The user is subscribed already.
    AlreadySubscribed,
    /// The user is unsubscribed already.
    AlreadyUnsubscribed,
    /// There is no relation to delete.
    NothingToDelete,
    /// The user has no tracking quota left.
    QuotaExhausted,
    /// The user has a relation to the number already.
    DuplicateRelation,
}

impl ExpectedError {
    /// The status code of the refusal.
    pub fn status_code(&self) -> (r: u16)
        ensures
            r == match self {
                ExpectedError::UserNotFound => 520u16,
                ExpectedError::UserAlreadyExists => 521u16,
                ExpectedError::NoRelation => 525u16,
                ExpectedError::CarrierRequired => 530u16,
                ExpectedError::AlreadyDelivered => 533u16,
                ExpectedError::AlreadySubscribed => 534u16,
                ExpectedError::AlreadyUnsubscribed => 535u16,
                ExpectedError::NothingToDelete => 536u16,
                ExpectedError::QuotaExhausted => 540u16,
                ExpectedError::DuplicateRelation => 541u16,
            },
    {
        match self {
            ExpectedError::UserNotFound => 520,
            ExpectedError::UserAlreadyExists => 521,
            ExpectedError::NoRelation => 525,
            ExpectedError::CarrierRequired => 530,
            ExpectedError::AlreadyDelivered => 533,
            ExpectedError::AlreadySubscribed => 534,
            ExpectedError::AlreadyUnsubscribed => 535,
            ExpectedError::NothingToDelete => 536,
            ExpectedError::QuotaExhausted => 540,
            ExpectedError::DuplicateRelation => 541,
        }
    }
}

/// Ties a user (by id hash) to a tracking number, as the registration flow
/// stores it.
#[derive(Debug, Clone, PartialEq)]
pub struct TrackingNumberUserRelation {
    pub tracking_number: String,
    pub carrier: Option<i32>,
    pub user_id_hash: String,
    pub is_subscribed: bool,
}

/// The decimal digits of `n`, as ASCII bytes.
pub open spec fn decimal_of(n: nat) -> Seq<u8>
    decreases n,
{
    if n < 10 {
        seq![(n + 48) as u8]
    } else {
        decimal_of(n / 10).push((n % 10 + 48) as u8)
    }
}

/// The decimal digits of `n`, as ASCII bytes.
pub fn decimal_digits(n: u64) -> (r: Vec<u8>)
    ensures
        r@ == decimal_of(n as nat),
    decreases n,
{
    if n < 10 {
        let mut d: Vec<u8> = Vec::new();
        d.push(n as u8 + 48);
        d
    } else {
        let mut d = decimal_digits(n / 10);
        d.push((n % 10) as u8 + 48);
        d
    }
}

/// The magnitude of `x`.
pub open spec fn magnitude(x: i64) -> nat {
    if x < 0 {
        (-x) as nat
    } else {
        x as nat
    }
}

/// The id hash of the user with id `user_id`: the lowercase hex SHA-256
/// digest of the decimal digits of the id's magnitude.
pub open spec fn id_hash_of(user_id: i64) -> Seq<char> {
    hex_of(sha256_of(decimal_of(magnitude(user_id))))
}

/// The id hash of the user with id `user_id`.
pub fn user_id_hash(user_id: i64) -> (r: String)
    ensures
        r@ == id_hash_of(user_id),
{
    let m: u64 = if user_id < 0 {
        (-(user_id as i128)) as u64
    } else {
        user_id as u64
    };
    crate::signature::hex_sha256(decimal_digits(m).as_slice())
}

/// The id hash that a request names in its user header: a missing header
/// and one that is not UTF-8 text are refused.
pub fn user_hash_from_header(header: Option<&[u8]>) -> (r: Result<String, UserCheckError>)
    ensures
        match header {
            None => r == Err::<String, UserCheckError>(UserCheckError::MissingHeader),
            Some(h) => match r {
                Ok(s) => valid_utf8(h@) && s@ == decode_utf8(h@),
                Err(e) => !valid_utf8(h@) && e == UserCheckError::InvalidHeader,
            },
        },
{
    match header {
        None => Err(UserCheckError::MissingHeader),
        Some(h) => match crate::signature::utf8_text(h) {
            Some(s) => Ok(s),
            None => Err(UserCheckError::InvalidHeader),
        },
    }
}

/// A new user: the id, its hash, the name, and the default quota.
pub fn create_user(user_id: i64, user_name: String) -> (r: UserDatabaseForm)
    ensures
        r.user_id == user_id,
        r.user_id_hash@ == id_hash_of(user_id),
        r.user_name == user_name,
        r.remaining_tracking_quota == DEFAULT_TRACKING_QUOTA,
{
    UserDatabaseForm {
        user_id,
        user_id_hash: user_id_hash(user_id),
        user_name,
        remaining_tracking_quota: DEFAULT_TRACKING_QUOTA,
    }
}

/// The relation that a registration stores: subscribed, with no carrier.
pub fn insert_relation(tracking_number: String, user_id_hash: String) -> (r: TrackingNumberUserRelation)
    ensures
        r == (TrackingNumberUserRelation { tracking_number, carrier: None, user_id_hash, is_subscribed: true }),
{
    TrackingNumberUserRelation { tracking_number, carrier: None, user_id_hash, is_subscribed: true }
}

/// Whether `s` is the text `t`.
pub fn text_is(s: &str, t: &str) -> (r: bool)
    ensures
        r == (s@ == t@),
{
    proof {
        assert(decode_utf8(encode_utf8(s@)) == s@);
        assert(decode_utf8(encode_utf8(t@)) == t@);
    }
    constant_time_eq(s.as_bytes(), t.as_bytes())
}

/// Whether a package status is the terminal one.
pub open spec fn is_delivered(status: Option<String>) -> bool {
    status matches Some(s) && s@ == "Delivered"@
}

/// Whether the snapshot says that the package was delivered.
#[allow(non_snake_case)]
pub fn database_delivered_status_from_DBF(tracking_data_dbf: &TrackingData_DBF) -> (r: bool)
    ensures
        r == is_delivered(tracking_data_dbf.data.track_info.latest_status.status),
{
    match &tracking_data_dbf.data.track_info.latest_status.status {
        Some(s) => text_is(s.as_str(), "Delivered"),
        None => false,
    }
}

/// Whether a client is shown the number as tracked: never once the package
/// was delivered; else as the user's relation says, where there is one.
pub fn is_user_tracked(delivered: bool, subscribed: Option<bool>) -> (r: Option<bool>)
    ensures
        r == if delivered { Some(false) } else { subscribed },
{
    if delivered {
        Some(false)
    } else {
        subscribed
    }
}

/// Whether the first relation of `number` among `rels` is subscribed;
/// `None` where there is none.
pub open spec fn subscription_in(number: Seq<char>, rels: Seq<TrackingNumberUserRelation>) -> Option<bool>
    decreases rels.len(),
{
    if rels.len() == 0 {
        None
    } else if rels[0].tracking_number@ == number {
        Some(rels[0].is_subscribed)
    } else {
        subscription_in(number, rels.drop_first())
    }
}

/// Whether the user, whose relations are `rels`, is subscribed to
/// `number`; `None` where the user has no relation to it.
pub fn subscription_of(number: &String, rels: &Vec<TrackingNumberUserRelation>) -> (r: Option<bool>)
    ensures
        r == subscription_in(number@, rels@),
{
    let n = rels.len();
    let mut i: usize = 0;
    assert(rels@.subrange(0, n as int) =~= rels@);
    while i < n
        invariant
            n == rels@.len(),
            0 <= i <= n,
            subscription_in(number@, rels@) == subscription_in(number@, rels@.subrange(i as int, n as int)),
        decreases n - i,
    {
        assert(rels@.subrange(i as int, n as int).drop_first() == rels@.subrange(i + 1, n as int));
        if rels[i].tracking_number == *number {
            return Some(rels[i].is_subscribed);
        }
        i = i + 1;
    }
    None
}

/// Whether a user with `quota` left may register one more number.
pub fn check_quota(quota: i32) -> (r: Result<(), ExpectedError>)
    ensures
        r == if quota > 0 { Ok::<(), ExpectedError>(()) } else { Err(ExpectedError::QuotaExhausted) },
{
    if quota > 0 {
        Ok(())
    } else {
        Err(ExpectedError::QuotaExhausted)
    }
}

/// The quota left after a registration; it stays at zero or above.
pub fn database_decrement_user_quota(quota: i32) -> (r: i32)
    requires
        quota > 0,
    ensures
        r == quota - 1,
        r >= 0,
{
    quota - 1
}

/// What a registration does after the provider's answer (`None` for
/// success): `Ok(false)` for a number new to the provider, whose quota is
/// then taken from the user; `Ok(true)` for one the provider knew already,
/// whose latest data is sent to the user at once; `Err` with status 500
/// for any other failure.
pub fn register_single(api: Option<tracking_error>) -> (r: Result<bool, u16>)
    ensures
        r == match api {
            None => Ok::<bool, u16>(false),
            Some(tracking_error::TrackingAlreadyRegistered) => Ok(true),
            Some(_) => Err(500u16),
        },
{
    match api {
        None => Ok(false),
        Some(tracking_error::TrackingAlreadyRegistered) => Ok(true),
        Some(_) => Err(500),
    }
}

/// What a request to track a number again does, given the provider's
/// tracking and package status: a delivered package is refused; otherwise
/// the user is subscribed, and `Ok(true)` says that the provider is to track
/// the number again because it stopped.
pub fn retrack_stopped_number(tracking_status: &str, package_status: &str) -> (r: Result<bool, ExpectedError>)
    ensures
        r == if package_status@ == "Delivered"@ {
            Err::<bool, ExpectedError>(ExpectedError::AlreadyDelivered)
        } else {
            Ok(tracking_status@ == "Stopped"@)
        },
{
    if text_is(package_status, "Delivered") {
        Err(ExpectedError::AlreadyDelivered)
    } else {
        Ok(text_is(tracking_status, "Stopped"))
    }
}

/// The answer to a change of a relation, from how many records the store
/// changed: none changed gives `refusal`.
pub fn relation_change_outcome(changed: u64, refusal: ExpectedError) -> (r: Result<(), ExpectedError>)
    ensures
        r == if changed > 0 { Ok::<(), ExpectedError>(()) } else { Err(refusal) },
{
    if changed > 0 {
        Ok(())
    } else {
        Err(refusal)
    }
}

} // verus!
