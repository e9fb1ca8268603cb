use guest_place::common::utils::format_number_with_spaces;
use guest_place::ids::{parse_uuid, uuid_to_string};
use guest_place::text::{find_char_from, parse_i64, same_text, starts_with, substring, trim, trim_end_char, to_lowercase};

#[test]
fn format_number_groups_thousands() {
    assert_eq!(format_number_with_spaces("1234567"), "1 234 567");
    assert_eq!(format_number_with_spaces("1000"), "1 000");
    assert_eq!(format_number_with_spaces("999"), "999");
    assert_eq!(format_number_with_spaces(""), "");
}

#[test]
fn format_number_drops_non_digits() {
    assert_eq!(format_number_with_spaces("+7 (912) 345-67-89"), "79 123 456 789");
    assert_eq!(format_number_with_spaces("abc"), "");
}

#[test]
fn format_number_is_idempotent() {
    let once = format_number_with_spaces("12345678");
    assert_eq!(once, "12 345 678");
    assert_eq!(format_number_with_spaces(&once), once);
}

#[test]
fn format_number_keeps_digits_in_order() {
    let out = format_number_with_spaces("a1b2c3d4");
    let digits: String = out.chars().filter(|c| *c != ' ').collect();
    assert_eq!(digits, "1234");
    assert_eq!(out, "1 234");
}

#[test]
fn trim_removes_unicode_whitespace() {
    assert_eq!(trim("  hello \t\n"), "hello");
    assert_eq!(trim("\u{3000}x\u{a0}"), "x");
    assert_eq!(trim("   "), "");
    assert_eq!(trim("a b"), "a b");
}

#[test]
fn trim_end_char_removes_every_trailing_char() {
    assert_eq!(trim_end_char("http://host///", '/'), "http://host");
    assert_eq!(trim_end_char("http://host", '/'), "http://host");
    assert_eq!(trim_end_char("///", '/'), "");
}

#[test]
fn to_lowercase_maps_unicode() {
    assert_eq!(to_lowercase("HeLLo ÄÖ"), "hello äö");
}

#[test]
fn parse_i64_accepts_signs_and_digits() {
    assert_eq!(parse_i64("42"), Some(42));
    assert_eq!(parse_i64("+7"), Some(7));
    assert_eq!(parse_i64("-15"), Some(-15));
    assert_eq!(parse_i64("9223372036854775807"), Some(i64::MAX));
    assert_eq!(parse_i64("-9223372036854775808"), Some(i64::MIN));
}

#[test]
fn parse_i64_refuses_what_std_refuses() {
    assert_eq!(parse_i64(""), None);
    assert_eq!(parse_i64("-"), None);
    assert_eq!(parse_i64("+"), None);
    assert_eq!(parse_i64("12a"), None);
    assert_eq!(parse_i64(" 1"), None);
    assert_eq!(parse_i64("9223372036854775808"), None);
    assert_eq!(parse_i64("-9223372036854775809"), None);
}

#[test]
fn parse_i64_matches_std() {
    for s in ["0", "007", "-0", "+12", "1_000", "99999999999999999999", "-42", "x"] {
        assert_eq!(parse_i64(s), s.parse::<i64>().ok(), "input {s}");
    }
}

#[test]
fn uuid_text_is_hyphenated_lower_case() {
    let u: u128 = 0x67e55044_10b1_426f_9247_bb680e5fe0c8;
    assert_eq!(uuid_to_string(u), "67e55044-10b1-426f-9247-bb680e5fe0c8");
    assert_eq!(uuid_to_string(0), "00000000-0000-0000-0000-000000000000");
    assert_eq!(uuid_to_string(u128::MAX), "ffffffff-ffff-ffff-ffff-ffffffffffff");
}

#[test]
fn parse_uuid_reads_the_value() {
    let u: u128 = 0x67e55044_10b1_426f_9247_bb680e5fe0c8;
    assert_eq!(parse_uuid("67e55044-10b1-426f-9247-bb680e5fe0c8"), Some(u));
    assert_eq!(parse_uuid("67E55044-10B1-426F-9247-BB680E5FE0C8"), Some(u));
    assert_eq!(parse_uuid("not-a-uuid"), None);
    assert_eq!(parse_uuid(&uuid_to_string(u)), Some(u));
    assert_eq!(parse_uuid("67e5504410b1426f9247bb680e5fe0c8"), Some(u));
    assert_eq!(parse_uuid("{67e55044-10b1-426f-9247-bb680e5fe0c8}"), Some(u));
    assert_eq!(parse_uuid("URN:uuid:67e55044-10b1-426f-9247-bb680e5fe0c8"), Some(u));
    assert_eq!(parse_uuid("(67e55044-10b1-426f-9247-bb680e5fe0c8)"), None);
    assert_eq!(parse_uuid("67e55044-10b1-426f-9247-bb680e5fe0cg"), None);
    assert_eq!(parse_uuid("67e5504410b1-426f-9247-bb680e5fe0c8-"), None);
}

#[test]
fn small_text_helpers() {
    assert!(starts_with("Bearer abc", "Bearer "));
    assert!(!starts_with("Bear", "Bearer "));
    assert_eq!(substring("héllo", 1, 3), "él");
    assert!(same_text("ab", "ab"));
    assert!(!same_text("ab", "abc"));
    assert_eq!(find_char_from("a&b&c", 0, '&'), 1);
    assert_eq!(find_char_from("a&b&c", 2, '&'), 3);
    assert_eq!(find_char_from("abc", 0, '&'), 3);
}

#[test]
fn whitespace_is_exactly_std_whitespace() {
    for code in 0u32..0x110000 {
        if let Some(c) = char::from_u32(code) {
            assert_eq!(guest_place::text::char_is_whitespace(c), c.is_whitespace(), "U+{code:04X}");
        }
    }
}
