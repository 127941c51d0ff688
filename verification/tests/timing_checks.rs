//! Timestamp ages and staleness against real parsers.

use vpn_operator::error::Error;
use vpn_operator::timing::{age_millis, is_stale};

// 1970-01-01T00:00:10Z is ten seconds past the epoch.
const STAMP: &str = "1970-01-01T00:00:10Z";
const STAMP_MS: i64 = 10_000;

#[test]
fn age_is_measured_from_the_stamp() {
    assert_eq!(age_millis(STAMP, STAMP_MS).unwrap(), 0);
    assert_eq!(age_millis(STAMP, STAMP_MS + 5_000).unwrap(), 5_000);
}

#[test]
fn offsets_in_the_stamp_are_honored() {
    // One hour east of UTC: the instant is 10s - 1h past the epoch.
    let east = "1970-01-01T01:00:10+01:00";
    assert_eq!(age_millis(east, STAMP_MS).unwrap(), 0);
}

#[test]
fn malformed_and_future_stamps_are_user_errors() {
    assert!(matches!(age_millis("yesterday-ish", STAMP_MS), Err(Error::UserInput(_))));
    assert!(matches!(age_millis(STAMP, STAMP_MS - 1), Err(Error::UserInput(_))));
}

#[test]
fn staleness_is_the_probe_interval() {
    assert!(!is_stale(STAMP, STAMP_MS + 12_000));
    assert!(is_stale(STAMP, STAMP_MS + 12_001));
    assert!(is_stale("garbage", STAMP_MS));
}

#[test]
fn error_expectedness_matches_the_taxonomy() {
    assert!(Error::Conflict.is_expected());
    assert!(Error::NotFound.is_expected());
    assert!(!Error::UserInput("bad".to_owned()).is_expected());
    assert!(!Error::Transient("io".to_owned()).is_expected());
}
