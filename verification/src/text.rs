//! Numbers as text: the digit strings that the report is made of.

use crate::outside::push_char;
use vstd::prelude::*;
use vstd::string::*;
use vstd::utf8::encode_utf8_decode_utf8;

verus! {

/// The character for one digit: `0`..`9`, then lower-case `a`..`f`.
pub open spec fn digit_char(d: int) -> char {
    if d < 10 {
        (48 + d) as char
    } else {
        (87 + d) as char
    }
}

/// `n` in hexadecimal, lower case, without leading zeros (`0` is `"0"`).
pub open spec fn hex_digits(n: nat) -> Seq<char>
    decreases n,
{
    if n < 16 {
        seq![digit_char(n as int)]
    } else {
        hex_digits(n / 16).push(digit_char((n % 16) as int))
    }
}

/// `n` in decimal, without leading zeros (`0` is `"0"`).
pub open spec fn decimal_digits(n: nat) -> Seq<char>
    decreases n,
{
    if n < 10 {
        seq![digit_char(n as int)]
    } else {
        decimal_digits(n / 10).push(digit_char((n % 10) as int))
    }
}

/// `count` copies of `c`.
pub open spec fn repeated(c: char, count: nat) -> Seq<char> {
    Seq::new(count, |k: int| c)
}

/// `digits`, with zeros in front where it has fewer than `width` characters.
pub open spec fn zero_padded(digits: Seq<char>, width: nat) -> Seq<char> {
    if digits.len() < width {
        repeated('0', (width - digits.len()) as nat) + digits
    } else {
        digits
    }
}

/// One byte as two hexadecimal digits.
pub open spec fn hex_byte(byte: u8) -> Seq<char> {
    seq![digit_char(byte as int / 16), digit_char(byte as int % 16)]
}

/// The number of hexadecimal digits of `n`.
pub open spec fn hex_width(n: nat) -> nat
    decreases n,
{
    if n < 16 {
        1
    } else {
        hex_width(n / 16) + 1
    }
}

/// `hex_digits(n)` has `hex_width(n)` characters, between 1 and 16 of them for
/// a number of 64 bits.
pub proof fn lemma_hex_digits_len(n: nat)
    ensures
        hex_digits(n).len() == hex_width(n),
        hex_width(n) >= 1,
        n <= 0xffff_ffff_ffff_ffff ==> hex_width(n) <= 16,
        n < 0x1_0000_0000 ==> hex_width(n) <= 8,
    decreases n,
{
    reveal_with_fuel(hex_width, 17);
    if n >= 16 {
        lemma_hex_digits_len(n / 16);
    }
}

/// The digit character for `d`.
pub fn digit(d: u8) -> (c: char)
    requires
        d < 16,
    ensures
        c == digit_char(d as int),
{
    if d < 10 {
        (48u8 + d) as char
    } else {
        (87u8 + d) as char
    }
}

/// Appends `n` in hexadecimal, without leading zeros.
pub fn push_hex(text: &mut String, n: usize)
    ensures
        final(text)@ == old(text)@ + hex_digits(n as nat),
    decreases n,
{
    if n >= 16 {
        push_hex(text, n / 16);
    }
    push_char(text, digit((n % 16) as u8));
}

/// Appends `n` in decimal, without leading zeros.
pub fn push_decimal(text: &mut String, n: usize)
    ensures
        final(text)@ == old(text)@ + decimal_digits(n as nat),
    decreases n,
{
    if n >= 10 {
        push_decimal(text, n / 10);
    }
    push_char(text, digit((n % 10) as u8));
}

/// Appends `count` copies of `c`.
pub fn push_repeated(text: &mut String, c: char, count: usize)
    ensures
        final(text)@ == old(text)@ + repeated(c, count as nat),
{
    let mut done: usize = 0;
    while done < count
        invariant
            done <= count,
            text@ == old(text)@ + repeated(c, done as nat),
        decreases count - done,
    {
        push_char(text, c);
        done += 1;
    }
}

/// The number of hexadecimal digits of `n`.
pub fn hex_digit_count(n: usize) -> (count: usize)
    ensures
        count == hex_width(n as nat),
        1 <= count <= 16,
    decreases n,
{
    proof {
        lemma_hex_digits_len(n as nat);
    }
    if n >= 16 {
        hex_digit_count(n / 16) + 1
    } else {
        1
    }
}

/// Appends `n` in hexadecimal, with zeros in front up to `width` characters.
pub fn push_hex_padded(text: &mut String, n: usize, width: usize)
    ensures
        final(text)@ == old(text)@ + zero_padded(hex_digits(n as nat), width as nat),
{
    proof {
        lemma_hex_digits_len(n as nat);
    }
    let count = hex_digit_count(n);
    if count < width {
        push_repeated(text, '0', width - count);
    }
    push_hex(text, n);
}

/// Appends one byte as two hexadecimal digits.
pub fn push_hex_byte(text: &mut String, byte: u8)
    ensures
        final(text)@ == old(text)@ + hex_byte(byte),
{
    push_char(text, digit(byte / 16));
    push_char(text, digit(byte % 16));
}

/// Whether two texts hold the same characters.
pub fn same_text(a: &str, b: &str) -> (same: bool)
    ensures
        same == (a@ == b@),
{
    let left = a.as_bytes();
    let right = b.as_bytes();
    proof {
        encode_utf8_decode_utf8(a@);
        encode_utf8_decode_utf8(b@);
    }
    if left.len() != right.len() {
        return false;
    }
    let mut k: usize = 0;
    while k < left.len()
        invariant
            k <= left@.len(),
            left@.len() == right@.len(),
            left@.take(k as int) == right@.take(k as int),
            left@ == a.spec_bytes(),
            right@ == b.spec_bytes(),
            vstd::utf8::decode_utf8(a.spec_bytes()) == a@,
            vstd::utf8::decode_utf8(b.spec_bytes()) == b@,
        decreases left@.len() - k,
    {
        if left[k] != right[k] {
            return false;
        }
        assert(left@.take(k + 1) =~= left@.take(k as int).push(left@[k as int]));
        assert(right@.take(k + 1) =~= right@.take(k as int).push(right@[k as int]));
        k += 1;
    }
    assert(left@ =~= left@.take(k as int));
    assert(right@ =~= right@.take(k as int));
    true
}

} // verus!
