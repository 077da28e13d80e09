use bilibili_recorder::number::{i64_text, parse_i64, u64_text};
use bilibili_recorder::text::{
    char_is_control, char_is_digit, char_is_white_space, eq_ignore_ascii_case, trim,
};

#[test]
fn characters_are_classified_as_by_the_standard_library() {
    for code in 0..=0x10ffff_u32 {
        if let Some(c) = char::from_u32(code) {
            assert_eq!(char_is_white_space(c), c.is_whitespace(), "{:x}", code);
            assert_eq!(char_is_control(c), c.is_control(), "{:x}", code);
            assert_eq!(char_is_digit(c), c.is_ascii_digit(), "{:x}", code);
        }
    }
}

#[test]
fn trimming_drops_white_space_on_both_sides_only() {
    for s in ["", " ", "a", " a b ", "\u{3000}直播\u{a0}\n", "\ta\u{85}", "\u{200b}x"] {
        assert_eq!(trim(s), s.trim());
    }
    assert_eq!(trim("  a b\t"), "a b");
}

#[test]
fn case_is_ignored_for_ascii_letters_only() {
    assert!(eq_ignore_ascii_case("CoN", "con"));
    assert!(!eq_ignore_ascii_case("Ä", "ä"));
    assert!(!eq_ignore_ascii_case("CON", "CO"));
    assert!(!eq_ignore_ascii_case("@", "`"));
}

#[test]
fn numbers_are_written_as_by_the_standard_library() {
    for n in [0, 1, 9, 10, 99, 100, 12345, u64::MAX] {
        assert_eq!(u64_text(n), n.to_string());
    }
    for n in [0, -1, 1, 7, -10, i64::MAX, i64::MIN] {
        assert_eq!(i64_text(n), n.to_string());
    }
}

#[test]
fn numbers_are_read_as_by_the_standard_library() {
    for s in [
        "",
        "+",
        "-",
        "0",
        "-0",
        "+7",
        "007",
        "12 ",
        " 12",
        "1_000",
        "9223372036854775807",
        "9223372036854775808",
        "-9223372036854775808",
        "-9223372036854775809",
        "99999999999999999999999",
        "１２",
        "--1",
        "12a",
    ] {
        assert_eq!(parse_i64(s), s.parse::<i64>().ok(), "{}", s);
    }
}

#[test]
fn numbers_are_read_back() {
    for n in [0, 5, -5, 80, 10000, i64::MAX, i64::MIN] {
        assert_eq!(parse_i64(&i64_text(n)), Some(n));
    }
}
