use tems_exepack::bytes::{contains_bytes, find_from, matches_at, parse_decimal_line, prefix_copy};
use tems_exepack::layout::{PackedLayout, HEADER_RESERVED_SIZE};
use tems_exepack::text::decimal_string;

#[test]
fn layout_without_decompressor() {
    let l = PackedLayout::plan(4096, 0);
    assert_eq!(l.header_reserved_size, 4096);
    assert_eq!(l.decompressor_offset, 4096);
    assert_eq!(l.decompressor_size, 0);
    assert_eq!(l.payload_offset, 4096);
}

#[test]
fn layout_with_decompressor() {
    let l = PackedLayout::plan(4096, 500);
    assert_eq!(l.decompressor_offset, 4096);
    assert_eq!(l.payload_offset, 4596);
}

#[test]
fn reserved_header_size() {
    assert_eq!(HEADER_RESERVED_SIZE, 4096);
}

#[test]
fn decimal_text() {
    assert_eq!(decimal_string(0), "0");
    assert_eq!(decimal_string(7), "7");
    assert_eq!(decimal_string(10), "10");
    assert_eq!(decimal_string(4596), "4596");
    assert_eq!(decimal_string(usize::MAX), usize::MAX.to_string());
}

#[test]
fn decimal_lines() {
    assert_eq!(parse_decimal_line(b"X=4096\nrest", 2), Some((4096, 6)));
    assert_eq!(parse_decimal_line(b"0\n", 0), Some((0, 1)));
    assert_eq!(parse_decimal_line(b"\n", 0), None);
    assert_eq!(parse_decimal_line(b"12a\n", 0), None);
    assert_eq!(parse_decimal_line(b"123", 0), None);
    assert_eq!(parse_decimal_line(b"", 0), None);
    assert_eq!(parse_decimal_line(b"99999999999999999999999\n", 0), None);
    let max = format!("{}\n", usize::MAX);
    assert_eq!(parse_decimal_line(max.as_bytes(), 0), Some((usize::MAX, max.len() - 1)));
}

#[test]
fn searching_bytes() {
    assert_eq!(find_from(b"abcabc", b"bc", 0), Some(1));
    assert_eq!(find_from(b"abcabc", b"bc", 2), Some(4));
    assert_eq!(find_from(b"abcabc", b"bd", 0), None);
    assert_eq!(find_from(b"ab", b"abc", 0), None);
    assert_eq!(find_from(b"ab", b"", 1), Some(1));
    assert!(matches_at(b"abc", b"c", 2));
    assert!(!matches_at(b"abc", b"c", 3));
    assert!(contains_bytes(b"xxTEMSxx", b"TEMS"));
    assert!(!contains_bytes(b"", b"T"));
}

#[test]
fn copying_a_prefix() {
    assert_eq!(prefix_copy(b"abcdef", 2), b"ab".to_vec());
    assert_eq!(prefix_copy(b"abcdef", 6), b"abcdef".to_vec());
    assert_eq!(prefix_copy(b"abcdef", 0), Vec::<u8>::new());
}
