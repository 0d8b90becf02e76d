use xue_hua_app_badge::platform::{badge_number, format_badge_label};
use xue_hua_app_badge::platform::numerals::parse_u32_str;

#[test]
fn format_badge_label_empty_for_zero_or_negative() {
    assert_eq!(format_badge_label(0), "");
    assert_eq!(format_badge_label(-1), "");
}

#[test]
fn format_badge_label_shows_count_up_to_99() {
    assert_eq!(format_badge_label(1), "1");
    assert_eq!(format_badge_label(99), "99");
}

#[test]
fn format_badge_label_shows_99_plus_above_99() {
    assert_eq!(format_badge_label(100), "99+");
}

#[test]
fn badge_number_clamps_to_valid_range() {
    assert_eq!(badge_number(-5), 0);
    assert_eq!(badge_number(0), 0);
    assert_eq!(badge_number(42), 42);
    assert_eq!(badge_number(99), 99);
    assert_eq!(badge_number(150), 99);
}

#[test]
fn format_badge_label_edges() {
    assert_eq!(format_badge_label(i32::MIN), "");
    assert_eq!(format_badge_label(i32::MAX), "99+");
    assert_eq!(format_badge_label(10), "10");
    assert_eq!(format_badge_label(7), "7");
    assert_eq!(format_badge_label(50), "50");
    assert_eq!(badge_number(i32::MIN), 0);
    assert_eq!(badge_number(i32::MAX), 99);
    assert_eq!(badge_number(1), 1);
}

#[test]
fn label_matches_number_for_every_count() {
    for count in -3..=150 {
        let label = format_badge_label(count);
        let number = badge_number(count);
        assert_eq!(label.is_empty(), number == 0);
        if (1..=99).contains(&count) {
            assert_eq!(parse_u32_str(&label), Some(number as u32));
            assert_eq!(label, count.to_string());
        }
        if count > 99 {
            assert_eq!(label, "99+");
        }
    }
}

#[test]
fn badge_number_is_idempotent_and_monotone() {
    let mut previous = badge_number(-10);
    for count in -10..=200 {
        let n = badge_number(count);
        assert_eq!(badge_number(n), n);
        assert!(n >= previous);
        assert!((0..=99).contains(&n));
        previous = n;
    }
}

#[test]
fn parse_u32_str_follows_std() {
    for text in [
        "", "+", "-", "0", "7", "16", "+16", "-16", "016", "4294967295", "4294967296",
        "99999999999", "1a", "a1", " 1", "1 ", "++1", "١٦",
    ] {
        assert_eq!(parse_u32_str(text), text.parse::<u32>().ok(), "{text}");
    }
}
