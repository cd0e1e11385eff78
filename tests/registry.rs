use teletrack::registry::{
    check_quota, create_user, database_decrement_user_quota, decimal_digits, insert_relation,
    is_user_tracked, register_single, subscription_of, TrackingNumberUserRelation, relation_change_outcome, retrack_stopped_number, text_is,
    user_hash_from_header, user_id_hash, ExpectedError, UserCheckError, DEFAULT_TRACKING_QUOTA,
};
use teletrack::trackingapi::tracking_error;

const HASH_OF_123: &str = "a665a45920422f9d417e4867efdc4fb8a04a1f3fff1fa07e998e86f7f7a27ae3";

#[test]
fn id_hash_is_hex_sha256_of_decimal_id() {
    assert_eq!(user_id_hash(123), HASH_OF_123);
    assert_eq!(user_id_hash(-123), HASH_OF_123);
    assert_eq!(user_id_hash(0), "5feceb66ffc86f38d952786c6d696c79c2dbc239dd4e91b46729d73a27fb57e9");
    assert_ne!(user_id_hash(124), HASH_OF_123);
}

#[test]
fn id_hash_of_extreme_ids() {
    assert_eq!(user_id_hash(i64::MIN).len(), 64);
    assert_eq!(user_id_hash(i64::MAX).len(), 64);
}

#[test]
fn decimal_digits_of_numbers() {
    assert_eq!(decimal_digits(0), b"0".to_vec());
    assert_eq!(decimal_digits(7), b"7".to_vec());
    assert_eq!(decimal_digits(10), b"10".to_vec());
    assert_eq!(decimal_digits(9223372036854775808), b"9223372036854775808".to_vec());
    assert_eq!(decimal_digits(u64::MAX), b"18446744073709551615".to_vec());
}

#[test]
fn new_user_has_hash_and_default_quota() {
    let u = create_user(123, "ann".to_string());
    assert_eq!(u.user_id, 123);
    assert_eq!(u.user_id_hash, HASH_OF_123);
    assert_eq!(u.user_name, "ann");
    assert_eq!(u.remaining_tracking_quota, 4);
    assert_eq!(DEFAULT_TRACKING_QUOTA, 4);
}

#[test]
fn new_relation_is_subscribed_without_carrier() {
    let r = insert_relation("RR1".to_string(), "h".to_string());
    assert_eq!(r.tracking_number, "RR1");
    assert_eq!(r.user_id_hash, "h");
    assert_eq!(r.carrier, None);
    assert!(r.is_subscribed);
}

#[test]
fn quota_rules() {
    assert_eq!(check_quota(1), Ok(()));
    assert_eq!(check_quota(0), Err(ExpectedError::QuotaExhausted));
    assert_eq!(check_quota(-2), Err(ExpectedError::QuotaExhausted));
    assert_eq!(database_decrement_user_quota(1), 0);
    assert_eq!(database_decrement_user_quota(4), 3);
}

#[test]
fn registration_outcomes() {
    assert_eq!(register_single(None), Ok(false));
    assert_eq!(register_single(Some(tracking_error::TrackingAlreadyRegistered)), Ok(true));
    assert_eq!(register_single(Some(tracking_error::TrackingNumberNotFoundByAPI)), Err(500));
    assert_eq!(register_single(Some(tracking_error::ReqwestError)), Err(500));
}

#[test]
fn delivered_package_is_not_retracked() {
    assert_eq!(retrack_stopped_number("Stopped", "Delivered"), Err(ExpectedError::AlreadyDelivered));
    assert_eq!(retrack_stopped_number("Tracking", "Delivered"), Err(ExpectedError::AlreadyDelivered));
    assert_eq!(retrack_stopped_number("Stopped", "InTransit"), Ok(true));
    assert_eq!(retrack_stopped_number("Tracking", "InTransit"), Ok(false));
}

#[test]
fn tracked_flag_for_clients() {
    assert_eq!(is_user_tracked(true, Some(true)), Some(false));
    assert_eq!(is_user_tracked(false, Some(true)), Some(true));
    assert_eq!(is_user_tracked(false, None), None);
}

#[test]
fn relation_change_answers() {
    assert_eq!(relation_change_outcome(1, ExpectedError::AlreadySubscribed), Ok(()));
    assert_eq!(relation_change_outcome(0, ExpectedError::AlreadySubscribed), Err(ExpectedError::AlreadySubscribed));
    assert_eq!(relation_change_outcome(0, ExpectedError::NothingToDelete), Err(ExpectedError::NothingToDelete));
}

#[test]
fn expected_error_codes() {
    let all = [
        (ExpectedError::UserNotFound, 520),
        (ExpectedError::UserAlreadyExists, 521),
        (ExpectedError::NoRelation, 525),
        (ExpectedError::CarrierRequired, 530),
        (ExpectedError::AlreadyDelivered, 533),
        (ExpectedError::AlreadySubscribed, 534),
        (ExpectedError::AlreadyUnsubscribed, 535),
        (ExpectedError::NothingToDelete, 536),
        (ExpectedError::QuotaExhausted, 540),
        (ExpectedError::DuplicateRelation, 541),
    ];
    for (e, c) in all {
        assert_eq!(e.status_code(), c);
    }
}

#[test]
fn user_header() {
    assert_eq!(user_hash_from_header(None), Err(UserCheckError::MissingHeader));
    assert_eq!(user_hash_from_header(Some(&[0xc3])), Err(UserCheckError::InvalidHeader));
    assert_eq!(user_hash_from_header(Some(b"abc")), Ok("abc".to_string()));
}

#[test]
fn text_comparison() {
    assert!(text_is("Delivered", "Delivered"));
    assert!(!text_is("delivered", "Delivered"));
    assert!(!text_is("", "Delivered"));
}

fn owned(number: &str, subscribed: bool) -> TrackingNumberUserRelation {
    TrackingNumberUserRelation {
        tracking_number: number.to_string(),
        carrier: None,
        user_id_hash: "h".to_string(),
        is_subscribed: subscribed,
    }
}

#[test]
fn subscription_lookup() {
    let rels = vec![owned("A", true), owned("B", false), owned("B", true)];
    assert_eq!(subscription_of(&"A".to_string(), &rels), Some(true));
    assert_eq!(subscription_of(&"B".to_string(), &rels), Some(false));
    assert_eq!(subscription_of(&"C".to_string(), &rels), None);
    assert_eq!(subscription_of(&"A".to_string(), &vec![]), None);
}
