//! Slot-name formatting and parsing.

use vpn_operator::slot::{format_usize, parse_slot, parse_usize, reservation_name};

#[test]
fn format_small_numbers() {
    assert_eq!(format_usize(0), "0");
    assert_eq!(format_usize(7), "7");
    assert_eq!(format_usize(10), "10");
    assert_eq!(format_usize(255), "255");
    assert_eq!(format_usize(1000), "1000");
}

#[test]
fn parse_plain_numerals() {
    assert_eq!(parse_usize("0"), Some(0));
    assert_eq!(parse_usize("42"), Some(42));
    assert_eq!(parse_usize("007"), Some(7));
}

#[test]
fn parse_rejects_non_numerals() {
    assert_eq!(parse_usize(""), None);
    assert_eq!(parse_usize("abc"), None);
    assert_eq!(parse_usize("4a"), None);
    assert_eq!(parse_usize("-1"), None);
    assert_eq!(parse_usize("99999999999999999999999999"), None);
}

#[test]
fn reservation_names_are_deterministic() {
    assert_eq!(reservation_name("vpn0", 0), "vpn0-0");
    assert_eq!(reservation_name("vpn0", 3), "vpn0-3");
    assert_eq!(reservation_name("my-provider", 12), "my-provider-12");
}

#[test]
fn parse_is_left_inverse_of_format() {
    for provider in ["p", "vpn0", "us-west-1", "a-b-c"] {
        for slot in [0usize, 1, 9, 10, 99, 100, 4096] {
            let name = reservation_name(provider, slot);
            assert_eq!(parse_slot(&name), Some(slot), "name {name}");
        }
    }
}

#[test]
fn parse_slot_takes_suffix_after_last_dash() {
    assert_eq!(parse_slot("provider-5"), Some(5));
    assert_eq!(parse_slot("us-west-1-12"), Some(12));
    assert_eq!(parse_slot("17"), Some(17));
}

#[test]
fn parse_slot_ignores_malformed_suffixes() {
    assert_eq!(parse_slot("provider-"), None);
    assert_eq!(parse_slot("provider-x"), None);
    assert_eq!(parse_slot("provider"), None);
    assert_eq!(parse_slot(""), None);
    assert_eq!(parse_slot("provider-99999999999999999999999999"), None);
}
