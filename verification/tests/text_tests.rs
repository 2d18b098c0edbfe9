use guessbot::text::count_tokens;
use guessbot::text::eq_ignore_case;
use guessbot::text::find_space;
use guessbot::text::has_prefix;
use guessbot::text::is_cancel_keyword;
use guessbot::text::parse_guess;
use guessbot::text::str_eq;
use guessbot::text::u32_to_string;
use guessbot::text::u64_to_string;

#[test]
fn decimal_rendering_is_exact() {
    assert_eq!(u64_to_string(0), "0");
    assert_eq!(u64_to_string(7), "7");
    assert_eq!(u64_to_string(10), "10");
    assert_eq!(u64_to_string(352216606098587650), "352216606098587650");
    assert_eq!(u64_to_string(u64::MAX), "18446744073709551615");
    assert_eq!(u32_to_string(100), "100");
}

#[test]
fn parse_guess_round_trips_rendering() {
    for n in [0u32, 1, 9, 10, 99, 100, 4294967295] {
        assert_eq!(parse_guess(&u32_to_string(n)), Some(n));
    }
}

#[test]
fn parse_guess_edges() {
    assert_eq!(parse_guess(""), None);
    assert_eq!(parse_guess(" 5"), None);
    assert_eq!(parse_guess("5 "), None);
    assert_eq!(parse_guess("-5"), None);
    assert_eq!(parse_guess("4294967295"), Some(u32::MAX));
    assert_eq!(parse_guess("4294967296"), None);
    assert_eq!(parse_guess("0000000000000000000005"), Some(5));
}

#[test]
fn case_insensitive_comparison() {
    assert!(eq_ignore_case("STOP", "stop"));
    assert!(eq_ignore_case("stop", "stop"));
    assert!(eq_ignore_case("StOp", "stop"));
    assert!(!eq_ignore_case("stop", "STOP"));
    assert!(!eq_ignore_case("stops", "stop"));
    assert!(!eq_ignore_case("sto", "stop"));
    assert!(is_cancel_keyword("CANCEL"));
    assert!(is_cancel_keyword("exit"));
    assert!(!is_cancel_keyword("halt"));
}

#[test]
fn token_counting() {
    assert_eq!(count_tokens(""), 0);
    assert_eq!(count_tokens("   "), 0);
    assert_eq!(count_tokens("one"), 1);
    assert_eq!(count_tokens("one two"), 2);
    assert_eq!(count_tokens("  one   two  three "), 3);
}

#[test]
fn prefix_and_split() {
    assert!(has_prefix("m!ping", "m!"));
    assert!(has_prefix("m!", "m!"));
    assert!(!has_prefix("m", "m!"));
    assert!(!has_prefix("x!ping", "m!"));
    assert_eq!(find_space("nick New Name"), 4);
    assert_eq!(find_space("ping"), 4);
    assert_eq!(find_space(" x"), 0);
    assert!(str_eq("abc", "abc"));
    assert!(!str_eq("abc", "abd"));
    assert!(!str_eq("abc", "ab"));
}
