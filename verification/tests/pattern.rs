use vanity_address::lines::INVALID_PATTERN;
use vanity_address::pattern::hex_digit_char;
use vanity_address::pattern::to_lower_hex_digit;
use vanity_address::pattern::InvalidPattern;
use vanity_address::pattern::Pattern;

#[test]
fn lowercase_pattern_is_kept() {
    let pattern = Pattern::parse("ab").unwrap();
    assert_eq!(pattern.as_str(), "ab");
    assert_eq!(pattern.len(), 2);
}

#[test]
fn uppercase_pattern_is_put_into_lowercase() {
    let pattern = Pattern::parse("AbCdEf0918").unwrap();
    assert_eq!(pattern.as_str(), "abcdef0918");
    assert_eq!(pattern.len(), 10);
}

#[test]
fn empty_pattern_is_accepted() {
    let pattern = Pattern::parse("").unwrap();
    assert_eq!(pattern.as_str(), "");
    assert_eq!(pattern.len(), 0);
}

#[test]
fn all_digits_are_accepted() {
    let pattern = Pattern::parse("0123456789abcdefABCDEF").unwrap();
    assert_eq!(pattern.as_str(), "0123456789abcdefabcdef");
}

#[test]
fn pattern_zz_is_refused_with_the_message() {
    let refused = Pattern::parse("zz");
    assert_eq!(refused.as_ref().err(), Some(&InvalidPattern {}));
    assert_eq!(refused.unwrap_err().message(), "Invalid pattern. Use 0-9, a-f.");
    assert_eq!(INVALID_PATTERN, "Invalid pattern. Use 0-9, a-f.");
}

#[test]
fn one_foreign_character_anywhere_refuses_the_pattern() {
    assert!(Pattern::parse("g").is_err());
    assert!(Pattern::parse("12g4").is_err());
    assert!(Pattern::parse("abcG").is_err());
    assert!(Pattern::parse("0x12").is_err());
    assert!(Pattern::parse("ab ").is_err());
    assert!(Pattern::parse(" ab").is_err());
    assert!(Pattern::parse("a-b").is_err());
    assert!(Pattern::parse("ab\n").is_err());
}

#[test]
fn characters_next_to_the_digit_ranges_are_refused() {
    assert!(Pattern::parse("/").is_err());
    assert!(Pattern::parse(":").is_err());
    assert!(Pattern::parse("@").is_err());
    assert!(Pattern::parse("G").is_err());
    assert!(Pattern::parse("`").is_err());
    assert!(Pattern::parse("g").is_err());
}

#[test]
fn characters_beyond_ascii_are_refused() {
    assert!(Pattern::parse("\u{e9}").is_err());
    assert!(Pattern::parse("a\u{e9}1").is_err());
    assert!(Pattern::parse("\u{ff11}\u{ff12}").is_err());
}

#[test]
fn hex_digit_char_knows_both_cases() {
    for c in "0123456789abcdefABCDEF".chars() {
        assert!(hex_digit_char(c));
    }
    for c in "gGzZ xX-_".chars() {
        assert!(!hex_digit_char(c));
    }
}

#[test]
fn lowering_changes_only_the_six_letters() {
    assert_eq!(to_lower_hex_digit('A'), 'a');
    assert_eq!(to_lower_hex_digit('F'), 'f');
    assert_eq!(to_lower_hex_digit('c'), 'c');
    assert_eq!(to_lower_hex_digit('7'), '7');
    assert_eq!(to_lower_hex_digit('G'), 'G');
}

#[test]
fn pattern_matches_an_address_that_begins_with_it() {
    let pattern = Pattern::parse("ab").unwrap();
    assert!(pattern.matches("ab5d4552091a69125d5dfcb7b8c2659029395bdf"));
    assert!(pattern.matches("ab"));
}

#[test]
fn pattern_does_not_match_elsewhere_in_the_address() {
    let pattern = Pattern::parse("ab").unwrap();
    assert!(!pattern.matches("7eab4552091a69125d5dfcb7b8c2659029395bdf"));
    assert!(!pattern.matches("ba5f4552091a69125d5dfcb7b8c2659029395bdf"));
    assert!(!pattern.matches("a"));
    assert!(!pattern.matches(""));
}

#[test]
fn uppercase_input_matches_a_lowercase_address() {
    let pattern = Pattern::parse("7E5F").unwrap();
    assert!(pattern.matches("7e5f4552091a69125d5dfcb7b8c2659029395bdf"));
    assert!(!pattern.matches("7E5F4552091A69125D5DFCB7B8C2659029395BDF"));
}

#[test]
fn empty_pattern_matches_every_address() {
    let pattern = Pattern::parse("").unwrap();
    assert!(pattern.matches("7e5f4552091a69125d5dfcb7b8c2659029395bdf"));
    assert!(pattern.matches("0000000000000000000000000000000000000000"));
    assert!(pattern.matches(""));
}

#[test]
fn pattern_longer_than_the_address_never_matches() {
    let pattern = Pattern::parse("7e5f4552091a69125d5dfcb7b8c2659029395bdf0").unwrap();
    assert_eq!(pattern.len(), 41);
    assert!(!pattern.matches("7e5f4552091a69125d5dfcb7b8c2659029395bdf"));
}

#[test]
fn whole_address_as_pattern_matches_itself() {
    let pattern = Pattern::parse("7e5f4552091a69125d5dfcb7b8c2659029395bdf").unwrap();
    assert!(pattern.matches("7e5f4552091a69125d5dfcb7b8c2659029395bdf"));
    assert!(!pattern.matches("7e5f4552091a69125d5dfcb7b8c2659029395bde"));
}

#[test]
fn typed_line_is_parsed_without_its_line_break() {
    assert_eq!(Pattern::parse_line("ab\n").unwrap().as_str(), "ab");
    assert_eq!(Pattern::parse_line("  AB12\r\n").unwrap().as_str(), "ab12");
    assert_eq!(Pattern::parse_line("ab").unwrap().as_str(), "ab");
}

#[test]
fn empty_line_gives_the_empty_pattern() {
    assert_eq!(Pattern::parse_line("\n").unwrap().len(), 0);
    assert_eq!(Pattern::parse_line("").unwrap().len(), 0);
    assert_eq!(Pattern::parse_line("   \n").unwrap().len(), 0);
}

#[test]
fn typed_line_zz_is_refused() {
    let refused = Pattern::parse_line("zz\n");
    assert_eq!(refused.unwrap_err().message(), "Invalid pattern. Use 0-9, a-f.");
}

#[test]
fn white_space_inside_a_typed_line_is_refused() {
    assert!(Pattern::parse_line("a b\n").is_err());
    assert!(Pattern::parse_line("ab\ncd\n").is_err());
}
