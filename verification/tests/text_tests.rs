use hextrace::text::digit;
use hextrace::text::hex_digit_count;
use hextrace::text::push_decimal;
use hextrace::text::push_hex;
use hextrace::text::push_hex_byte;
use hextrace::text::push_hex_padded;
use hextrace::text::push_repeated;
use hextrace::text::same_text;

#[test]
fn digits_are_lower_case() {
    let all: String = (0u8..16).map(digit).collect();
    assert_eq!(all, "0123456789abcdef");
}

#[test]
fn hex_has_no_leading_zeros() {
    let mut text = String::from(">");
    push_hex(&mut text, 0);
    text.push(' ');
    push_hex(&mut text, 0x11);
    text.push(' ');
    push_hex(&mut text, 0xdead_beef);
    text.push(' ');
    push_hex(&mut text, 0x100);
    assert_eq!(text, ">0 11 deadbeef 100");
}

#[test]
fn hex_matches_std_formatting() {
    for n in [0usize, 1, 9, 10, 15, 16, 255, 256, 4095, 0xffff_ffff, usize::MAX] {
        let mut text = String::new();
        push_hex(&mut text, n);
        assert_eq!(text, format!("{:x}", n));
        let mut padded = String::new();
        push_hex_padded(&mut padded, n, 8);
        assert_eq!(padded, format!("{:08x}", n));
        assert_eq!(hex_digit_count(n), format!("{:x}", n).len());
    }
}

#[test]
fn decimal_matches_std_formatting() {
    for n in [0usize, 7, 9, 10, 11, 99, 100, 12345, usize::MAX] {
        let mut text = String::new();
        push_decimal(&mut text, n);
        assert_eq!(text, format!("{}", n));
    }
}

#[test]
fn padding_is_a_minimum_width() {
    let mut text = String::new();
    push_hex_padded(&mut text, 0x10, 8);
    assert_eq!(text, "00000010");
    let mut wide = String::new();
    push_hex_padded(&mut wide, 0x1_2345_6789, 8);
    assert_eq!(wide, "123456789");
    let mut none = String::new();
    push_hex_padded(&mut none, 0xab, 0);
    assert_eq!(none, "ab");
}

#[test]
fn bytes_take_two_digits() {
    let mut text = String::new();
    for byte in [0x00u8, 0x0a, 0x10, 0x7f, 0xff] {
        push_hex_byte(&mut text, byte);
    }
    assert_eq!(text, "000a107fff");
}

#[test]
fn repeated_appends_count_copies() {
    let mut text = String::from("a");
    push_repeated(&mut text, ' ', 3);
    push_repeated(&mut text, 'x', 0);
    push_repeated(&mut text, '-', 2);
    assert_eq!(text, "a   --");
}

#[test]
fn same_text_compares_characters() {
    assert!(same_text("", ""));
    assert!(same_text("field X", "field X"));
    assert!(!same_text("field X", "field Y"));
    assert!(!same_text("field", "field "));
    assert!(!same_text("", "a"));
    assert!(same_text("caf\u{e9} \u{1f600}", "caf\u{e9} \u{1f600}"));
    assert!(!same_text("caf\u{e9}", "cafe"));
}
