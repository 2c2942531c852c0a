use recorder::text::{decimal_string, to_scientific, truncate_text};

#[test]
fn decimal_notation() {
    assert_eq!(decimal_string(0), "0");
    assert_eq!(decimal_string(7), "7");
    assert_eq!(decimal_string(10), "10");
    assert_eq!(decimal_string(30_000_000), "30000000");
    assert_eq!(decimal_string(u64::MAX), "18446744073709551615");
}

#[test]
fn scientific_notation() {
    assert_eq!(to_scientific(0), "0e0");
    assert_eq!(to_scientific(5), "5e0");
    assert_eq!(to_scientific(12), "1d2e1");
    assert_eq!(to_scientific(100), "1e2");
    assert_eq!(to_scientific(1234), "1d234e3");
    assert_eq!(to_scientific(7_100_000), "7d1e6");
    assert_eq!(to_scientific(10_000_000), "1e7");
    assert_eq!(to_scientific(14_074_000), "1d407e7");
    assert_eq!(to_scientific(30_000_000), "3e7");
    assert_eq!(to_scientific(u32::MAX), "4d295e9");
}

#[test]
fn scientific_ties_follow_binary_rounding() {
    // The double nearest 1.2345 lies just below it.
    assert_eq!(to_scientific(12_345), "1d234e4");
    assert_eq!(to_scientific(1_234_500), "1d234e6");
    // 1.0005 is stored just below, so three decimals give 1.000.
    assert_eq!(to_scientific(10_005), "1e4");
    // 1.0625 is exactly a double: a true tie, rounded to the even digit.
    assert_eq!(to_scientific(10_625), "1d062e4");
    assert_eq!(to_scientific(11_875), "1d188e4");
}

#[test]
fn scientific_mantissa_rounding_up_to_ten() {
    assert_eq!(to_scientific(99_996), "10e4");
    assert_eq!(to_scientific(12_346), "1d235e4");
}

#[test]
fn long_text_is_cut_with_ellipsis() {
    let long = "x".repeat(250);
    let cut = truncate_text(&long, 200);
    assert_eq!(cut.chars().count(), 203);
    assert_eq!(cut, format!("{}...", "x".repeat(200)));
    assert_eq!(truncate_text("abcdef", 3), "abc...");
}

#[test]
fn short_text_is_untouched() {
    assert_eq!(truncate_text("abc", 3), "abc");
    assert_eq!(truncate_text("", 0), "");
    assert_eq!(truncate_text("hello", 200), "hello");
}

#[test]
fn truncation_counts_characters_not_bytes() {
    let text = "é".repeat(5);
    assert_eq!(truncate_text(&text, 3), "ééé...");
    assert_eq!(truncate_text(&text, 5), text);
}
