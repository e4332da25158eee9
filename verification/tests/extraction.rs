use capitol_trades::extract::{
    amount_from_bounds, check_symbol, checked_symbol, extract_amount, extract_ticker, parse_bound,
};

#[test]
fn amount_is_midpoint_of_filed_range() {
    assert_eq!(extract_amount("$250,001 - $500,000"), Some(375000));
    assert_eq!(extract_amount("$1,001 - $15,000"), Some(8000));
    assert_eq!(extract_amount("$15,001 - $50,000"), Some(32500));
    assert_eq!(extract_amount("$50,001 - $100,000"), Some(75000));
}

#[test]
fn amount_is_found_inside_other_text() {
    assert_eq!(extract_amount("about $1,001 - $15,000 (estimated)"), Some(8000));
}

#[test]
fn amount_takes_the_leftmost_range() {
    assert_eq!(extract_amount("$1,001 - $15,000 or $15,001 - $50,000"), Some(8000));
}

#[test]
fn amount_without_a_range_is_absent() {
    assert_eq!(extract_amount(""), None);
    assert_eq!(extract_amount("Over $50,000,000"), None);
    assert_eq!(extract_amount("$1001 - $15000"), None);
    assert_eq!(extract_amount("1,001 - 15,000"), None);
    assert_eq!(extract_amount("$1,001 to $15,000"), None);
}

#[test]
fn amount_with_two_separators_in_a_bound_is_absent() {
    assert_eq!(extract_amount("$1,000,001 - $5,000,000"), None);
}

#[test]
fn amount_with_bounds_beyond_the_integer_range_is_absent() {
    assert_eq!(extract_amount("$99999999999999999999,000 - $1,000"), None);
}

#[test]
fn bounds_are_averaged_and_rounded_down() {
    assert_eq!(amount_from_bounds("1,001", "15,000"), Some(8000));
    assert_eq!(amount_from_bounds("250,001", "500,000"), Some(375000));
    assert_eq!(amount_from_bounds("3", "4"), Some(3));
    assert_eq!(amount_from_bounds("0", "0"), Some(0));
    assert_eq!(amount_from_bounds("0", "1"), Some(0));
}

#[test]
fn largest_bounds_do_not_overflow() {
    assert_eq!(
        amount_from_bounds("9,223,372,036,854,775,807", "9,223,372,036,854,775,807"),
        Some(i64::MAX)
    );
    assert_eq!(amount_from_bounds("9223372036854775807", "1"), Some(4611686018427387904));
}

#[test]
fn unreadable_bound_gives_no_amount() {
    assert_eq!(amount_from_bounds("1,001", "abc"), None);
    assert_eq!(amount_from_bounds("", "5"), None);
    assert_eq!(amount_from_bounds("5", ","), None);
    assert_eq!(amount_from_bounds("9223372036854775808", "1"), None);
}

#[test]
fn bound_skips_separators() {
    assert_eq!(parse_bound("250,001"), Some(250001));
    assert_eq!(parse_bound("1,000,000"), Some(1000000));
    assert_eq!(parse_bound("007"), Some(7));
    assert_eq!(parse_bound(",4,2,"), Some(42));
    assert_eq!(parse_bound("9223372036854775807"), Some(i64::MAX));
}

#[test]
fn bound_rejects_anything_but_digits() {
    assert_eq!(parse_bound(""), None);
    assert_eq!(parse_bound(","), None);
    assert_eq!(parse_bound("12a"), None);
    assert_eq!(parse_bound("-5"), None);
    assert_eq!(parse_bound("+5"), None);
    assert_eq!(parse_bound("1 000"), None);
    assert_eq!(parse_bound("٣٤"), None);
    assert_eq!(parse_bound("9223372036854775808"), None);
    assert_eq!(parse_bound("99999999999999999999999999"), None);
}

#[test]
fn ticker_is_taken_from_markup() {
    assert_eq!(
        extract_ticker("<a href=\"https://finance.yahoo.com/q?s=MSFT\" target=\"_blank\">MSFT</a>"),
        Some("MSFT".to_string())
    );
    assert_eq!(extract_ticker("<a href=...>AAPL</a>"), Some("AAPL".to_string()));
    assert_eq!(extract_ticker(">T<"), Some("T".to_string()));
}

#[test]
fn ticker_is_the_leftmost_symbol() {
    assert_eq!(extract_ticker("<b>X</b><i>YZ</i>"), Some("X".to_string()));
    assert_eq!(extract_ticker("<b>x</b><i>YZ</i>"), Some("YZ".to_string()));
}

#[test]
fn text_without_a_bracketed_symbol_has_no_ticker() {
    assert_eq!(extract_ticker("no markup here"), None);
    assert_eq!(extract_ticker(""), None);
    assert_eq!(extract_ticker("--"), None);
    assert_eq!(extract_ticker("MSFT"), None);
    assert_eq!(extract_ticker("<a>msft</a>"), None);
    assert_eq!(extract_ticker("<a>BRK.B</a>"), None);
    assert_eq!(extract_ticker("><"), None);
    assert_eq!(extract_ticker(">MSFT"), None);
}

#[test]
fn symbol_is_capital_letters_only() {
    assert!(check_symbol("AAPL"));
    assert!(check_symbol("T"));
    assert!(!check_symbol(""));
    assert!(!check_symbol("aapl"));
    assert!(!check_symbol("BRK.B"));
    assert!(!check_symbol("AB1"));
    assert!(!check_symbol("--"));
    assert!(!check_symbol("ÄB"));
}

#[test]
fn captured_text_is_kept_only_if_a_symbol() {
    assert_eq!(checked_symbol(Some("AAPL".to_string())), Some("AAPL".to_string()));
    assert_eq!(checked_symbol(Some("aapl".to_string())), None);
    assert_eq!(checked_symbol(Some(String::new())), None);
    assert_eq!(checked_symbol(None), None);
}

#[test]
fn amount_in_other_digits_is_absent() {
    assert_eq!(extract_amount("$١,٢ - $٣,٤"), None);
}
