use mr_rippah::text::char_digit;
use mr_rippah::text::push_decimal;
use mr_rippah::text::push_two_digit;
use mr_rippah::text::same_text;
use mr_rippah::text::starts_with;

fn decimal(n: u64) -> String {
    let mut out = String::new();
    push_decimal(&mut out, n);
    out
}

#[test]
fn push_decimal_writes_the_number() {
    assert_eq!(decimal(0), "0");
    assert_eq!(decimal(7), "7");
    assert_eq!(decimal(10), "10");
    assert_eq!(decimal(1999), "1999");
    assert_eq!(decimal(18446744073709551615), "18446744073709551615");
}

#[test]
fn push_decimal_appends() {
    let mut out = String::from("n=");
    push_decimal(&mut out, 42);
    assert_eq!(out, "n=42");
}

#[test]
fn push_two_digit_pads_single_digits() {
    for (n, text) in [(0, "00"), (5, "05"), (9, "09"), (10, "10"), (42, "42"), (100, "100")] {
        let mut out = String::new();
        push_two_digit(&mut out, n);
        assert_eq!(out, text);
    }
}

#[test]
fn starts_with_compares_characters() {
    assert!(starts_with("spotify:playlist:x", "spotify:playlist:"));
    assert!(starts_with("abc", ""));
    assert!(starts_with("", ""));
    assert!(starts_with("abc", "abc"));
    assert!(!starts_with("ab", "abc"));
    assert!(!starts_with("abd", "abc"));
    assert!(!starts_with("", "a"));
    assert!(starts_with("\u{e9}t\u{e9}", "\u{e9}t"));
    assert!(!starts_with("\u{e9}t\u{e9}", "e"));
}

#[test]
fn same_text_is_equality() {
    assert!(same_text("", ""));
    assert!(same_text("playlist", "playlist"));
    assert!(!same_text("playlist", "playlists"));
    assert!(!same_text("playlists", "playlist"));
    assert!(!same_text("Playlist", "playlist"));
}

#[test]
fn char_digit_reads_ascii_digits_only() {
    assert_eq!(char_digit('0'), Some(0));
    assert_eq!(char_digit('9'), Some(9));
    assert_eq!(char_digit('/'), None);
    assert_eq!(char_digit(':'), None);
    assert_eq!(char_digit('a'), None);
    assert_eq!(char_digit('\u{663}'), None);
}

#[test]
fn push_signed_writes_the_sign() {
    for (n, text) in [(0, "0"), (7, "7"), (-7, "-7"), (2147483647, "2147483647"), (-2147483648, "-2147483648")] {
        let mut out = String::from(">");
        mr_rippah::text::push_signed(&mut out, n);
        assert_eq!(out, format!(">{}", text));
    }
}
