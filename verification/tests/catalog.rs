//! Tests of the menu catalog and of the decimal text helpers.

use ussdapp::menu::Menus;
use ussdapp::text::amount_string;
use ussdapp::text::decimal_string;
use ussdapp::text::format_entry;
use ussdapp::text::parse_u32;

/* ---------- MENUS TESTS ---------- */

#[test]
fn menu_from_number_valid() {
    assert_eq!(Menus::from_number(0), Some(Menus::Zero));
    assert_eq!(Menus::from_number(1), Some(Menus::One));
    assert_eq!(Menus::from_number(2), Some(Menus::Two));
    assert_eq!(Menus::from_number(3), Some(Menus::Three));
    assert_eq!(Menus::from_number(4), Some(Menus::Four));
    assert_eq!(Menus::from_number(5), Some(Menus::Five));
}

#[test]
fn menu_from_number_invalid() {
    assert_eq!(Menus::from_number(6), None);
    assert_eq!(Menus::from_number(99), None);
}

#[test]
fn menu_lookup_total_on_catalog_range() {
    for n in 0..=5u32 {
        assert!(Menus::from_number(n).is_some());
    }
    for n in 6..=100u32 {
        assert!(Menus::from_number(n).is_none());
    }
    assert!(Menus::from_number(u32::MAX).is_none());
}

#[test]
fn menu_labels() {
    assert_eq!(Menus::One.label(), "Account details");
    assert_eq!(Menus::Two.label(), "Balance");
    assert_eq!(Menus::Three.label(), "Transfer");
    assert_eq!(Menus::Four.label(), "Buy Airtime");
    assert_eq!(Menus::Five.label(), "Buy Data");
    assert_eq!(Menus::Zero.label(), "Exit");
}

/* ---------- DECIMAL TEXT ---------- */

#[test]
fn decimal_string_renders_plain_numbers() {
    assert_eq!(decimal_string(0), "0");
    assert_eq!(decimal_string(7), "7");
    assert_eq!(decimal_string(42), "42");
    assert_eq!(decimal_string(1000), "1000");
    assert_eq!(decimal_string(u64::MAX), "18446744073709551615");
}

#[test]
fn amount_string_drops_trailing_zero_cents() {
    assert_eq!(amount_string(0), "0");
    assert_eq!(amount_string(20_000), "200");
    assert_eq!(amount_string(200_000), "2000");
    assert_eq!(amount_string(50), "0.5");
    assert_eq!(amount_string(1_234), "12.34");
    assert_eq!(amount_string(105), "1.05");
    assert_eq!(amount_string(110), "1.1");
}

#[test]
fn format_entry_renders_both_outcomes() {
    assert_eq!(
        format_entry("Transfer", 20_000, true),
        "Transfer of $200 successfull"
    );
    assert_eq!(
        format_entry("Transfer", 200_000, false),
        "Transfer of $2000 failed"
    );
    assert_eq!(
        format_entry("Data purchase", 99, true),
        "Data purchase of $0.99 successfull"
    );
}

#[test]
fn parse_u32_accepts_digit_lines() {
    assert_eq!(parse_u32("0"), Some(0));
    assert_eq!(parse_u32("5"), Some(5));
    assert_eq!(parse_u32("007"), Some(7));
    assert_eq!(parse_u32("4294967295"), Some(u32::MAX));
}

#[test]
fn parse_u32_rejects_other_lines() {
    assert_eq!(parse_u32(""), None);
    assert_eq!(parse_u32("abc"), None);
    assert_eq!(parse_u32("12a"), None);
    assert_eq!(parse_u32("-1"), None);
    assert_eq!(parse_u32("4294967296"), None);
    assert_eq!(parse_u32("999999999999999999999"), None);
    assert_eq!(parse_u32("1 2"), None);
}
