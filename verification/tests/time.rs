use chat_directory::time::Timestamp;
use chrono::Duration;
use chrono::FixedOffset;
use chrono::NaiveDate;
use chrono::Utc;

#[test]
fn now_is_now() {
    let before = Utc::now().naive_utc();
    let at = Timestamp::now();
    let after = Utc::now().naive_utc();
    assert!(before <= at.utc());
    assert!(at.utc() <= after);
    assert!(after - before < Duration::seconds(10));
}

#[test]
fn now_carries_the_local_offset() {
    let at = Timestamp::now();
    let local = chrono::Local::now();
    assert_eq!(at.offset(), *local.offset());
}

#[test]
fn parts_come_back_as_given() {
    let utc = NaiveDate::from_ymd_opt(2020, 2, 29).unwrap().and_hms_opt(23, 59, 58).unwrap();
    let offset = FixedOffset::east_opt(2 * 3600).unwrap();
    let at = Timestamp::from_parts(utc, offset);
    assert_eq!(at.utc(), utc);
    assert_eq!(at.offset(), offset);
    let copy = at;
    assert_eq!(copy.utc(), at.utc());
}
