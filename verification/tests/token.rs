use chat_directory::time::Timestamp;
use chat_directory::token::invite_token;
use chat_directory::token::stamp_token;
use chrono::FixedOffset;
use chrono::NaiveDate;
use std::collections::hash_map::DefaultHasher;
use std::hash::Hash;
use std::hash::Hasher;
use uuid::Uuid;

fn leap_day_evening() -> Timestamp {
    let utc = NaiveDate::from_ymd_opt(2020, 2, 29).unwrap().and_hms_opt(23, 59, 58).unwrap();
    Timestamp::from_parts(utc, FixedOffset::east_opt(2 * 3600).unwrap())
}

fn hash_of(text: &str) -> u64 {
    let mut hasher = DefaultHasher::new();
    text.to_string().hash(&mut hasher);
    hasher.finish()
}

#[test]
fn no_token_without_the_administrator_flag() {
    assert_eq!(invite_token(false, &Uuid::new_v4()), None);
    assert_eq!(invite_token(false, &Uuid::nil()), None);
}

#[test]
fn token_with_the_administrator_flag() {
    assert!(invite_token(true, &Uuid::new_v4()).is_some());
    assert!(invite_token(true, &Uuid::nil()).is_some());
}

#[test]
fn tokens_of_two_administrators_differ() {
    let one = invite_token(true, &Uuid::from_u128(1)).unwrap();
    let other = invite_token(true, &Uuid::from_u128(2)).unwrap();
    assert_ne!(one, other);
}

#[test]
fn token_is_the_hash_of_identifier_and_time_as_printed() {
    let id = Uuid::from_u128(0xa1a2a3a4b1b2c1c2d1d2d3d4d5d6d7d8);
    let token = stamp_token(&id, &leap_day_evening());
    assert_eq!(
        token,
        hash_of("a1a2a3a4-b1b2-c1c2-d1d2-d3d4d5d6d7d82020-03-01 01:59:58 +02:00")
    );
    assert_ne!(token, hash_of(""));
    assert_ne!(token, hash_of("a1a2a3a4-b1b2-c1c2-d1d2-d3d4d5d6d7d8"));
    assert_ne!(token, hash_of("2020-03-01 01:59:58 +02:00"));
}

#[test]
fn token_is_fixed_by_identifier_and_time() {
    let id = Uuid::from_u128(7);
    let at = leap_day_evening();
    assert_eq!(stamp_token(&id, &at), stamp_token(&id, &at));
    assert_eq!(stamp_token(&id, &at), stamp_token(&Uuid::from_u128(7), &leap_day_evening()));
}

#[test]
fn token_changes_with_the_identifier() {
    let at = leap_day_evening();
    assert_ne!(stamp_token(&Uuid::from_u128(7), &at), stamp_token(&Uuid::from_u128(8), &at));
}

#[test]
fn token_changes_with_the_time_and_with_the_offset() {
    let id = Uuid::from_u128(7);
    let utc = NaiveDate::from_ymd_opt(2020, 2, 29).unwrap().and_hms_opt(23, 59, 58).unwrap();
    let later = NaiveDate::from_ymd_opt(2020, 2, 29).unwrap().and_hms_opt(23, 59, 59).unwrap();
    let east = FixedOffset::east_opt(2 * 3600).unwrap();
    let west = FixedOffset::west_opt(5 * 3600).unwrap();
    let token = stamp_token(&id, &Timestamp::from_parts(utc, east));
    assert_ne!(token, stamp_token(&id, &Timestamp::from_parts(later, east)));
    assert_ne!(token, stamp_token(&id, &Timestamp::from_parts(utc, west)));
    assert_eq!(
        stamp_token(&id, &Timestamp::from_parts(utc, west)),
        hash_of("00000000-0000-0000-0000-0000000000072020-02-29 18:59:58 -05:00")
    );
}
