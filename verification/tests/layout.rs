use magic::layout::{decimal_text, push_decimal, push_right_aligned, push_run};
use magic::text::{find_break, line_extent, slice_text};

#[test]
fn decimal_of_small_numbers() {
    assert_eq!(decimal_text(0), "0");
    assert_eq!(decimal_text(7), "7");
    assert_eq!(decimal_text(9), "9");
    assert_eq!(decimal_text(10), "10");
}

#[test]
fn decimal_of_large_numbers() {
    assert_eq!(decimal_text(1234567890), "1234567890");
    assert_eq!(decimal_text(u64::MAX as u128), "18446744073709551615");
    assert_eq!(decimal_text(u128::MAX), "340282366920938463463374607431768211455");
}

#[test]
fn push_decimal_appends() {
    let mut out = String::from("n=");
    push_decimal(&mut out, 405);
    assert_eq!(out, "n=405");
}

#[test]
fn push_run_repeats_one_character() {
    let mut out = String::from("[");
    push_run(&mut out, "^", 3);
    push_run(&mut out, "+", 0);
    push_run(&mut out, "│", 2);
    assert_eq!(out, "[^^^││");
}

#[test]
fn right_aligned_fills_with_spaces() {
    let mut out = String::new();
    push_right_aligned(&mut out, "7", 3);
    assert_eq!(out, "  7");
    let mut out = String::new();
    push_right_aligned(&mut out, "", 3);
    assert_eq!(out, "   ");
}

#[test]
fn right_aligned_keeps_long_text_whole() {
    let mut out = String::new();
    push_right_aligned(&mut out, "123", 3);
    assert_eq!(out, "123");
    let mut out = String::new();
    push_right_aligned(&mut out, "12345", 3);
    assert_eq!(out, "12345");
}

#[test]
fn right_aligned_counts_characters() {
    let mut out = String::new();
    push_right_aligned(&mut out, "é", 3);
    assert_eq!(out, "  é");
}

#[test]
fn find_break_finds_next_line_feed() {
    let bytes = "ab\ncd\n\nx".as_bytes();
    assert_eq!(find_break(bytes, 0), 2);
    assert_eq!(find_break(bytes, 2), 2);
    assert_eq!(find_break(bytes, 3), 5);
    assert_eq!(find_break(bytes, 6), 6);
    assert_eq!(find_break(bytes, 7), 8);
    assert_eq!(find_break(bytes, 8), 8);
}

#[test]
fn line_extent_gives_content_end_and_next_start() {
    let bytes = "ab\ncd\r\n\r\nx".as_bytes();
    assert_eq!(line_extent(bytes, 0), (2, 3));
    assert_eq!(line_extent(bytes, 3), (5, 7));
    assert_eq!(line_extent(bytes, 7), (7, 9));
    assert_eq!(line_extent(bytes, 9), (10, 10));
}

#[test]
fn line_extent_strips_one_carriage_return_only() {
    let bytes = "a\r\r\nb\r".as_bytes();
    assert_eq!(line_extent(bytes, 0), (2, 4));
    assert_eq!(line_extent(bytes, 4), (6, 6));
}

#[test]
fn slice_text_cuts_between_bytes() {
    assert_eq!(slice_text("let é = 1", 4, 6), "é");
    assert_eq!(slice_text("let é = 1", 0, 3), "let");
    assert_eq!(slice_text("abc", 1, 1), "");
    assert_eq!(slice_text("abc", 0, 3), "abc");
}
