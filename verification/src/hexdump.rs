//! One row of a hexdump, and the caret that marks a byte in it.

use crate::outside::push_char;
use crate::text::hex_byte;
use crate::text::digit_char;
use crate::text::hex_digits;
use crate::text::lemma_hex_digits_len;
use crate::text::push_hex_byte;
use crate::text::push_hex_padded;
use crate::text::push_repeated;
use crate::text::repeated;
use crate::text::zero_padded;
use vstd::prelude::*;

verus! {

/// The start of the row of 16 bytes that holds `offset`.
pub open spec fn row_start(offset: nat) -> nat {
    (offset - offset % 16) as nat
}

/// The column for the byte at `at`: its two digits, or two spaces past the
/// end of the input.
pub open spec fn hex_column(input: Seq<u8>, at: int) -> Seq<char> {
    if 0 <= at < input.len() {
        hex_byte(input[at])
    } else {
        seq![' ', ' ']
    }
}

/// A group of the row: a space, then the columns of two bytes.
pub open spec fn hex_group(input: Seq<u8>, line_begin: int, group: int) -> Seq<char> {
    seq![' '] + hex_column(input, line_begin + 2 * group) + hex_column(
        input,
        line_begin + 2 * group + 1,
    )
}

/// The first `count` groups of the row that starts at `line_begin`.
pub open spec fn hex_groups(input: Seq<u8>, line_begin: int, count: nat) -> Seq<char>
    decreases count,
{
    if count == 0 {
        Seq::empty()
    } else {
        hex_groups(input, line_begin, (count - 1) as nat) + hex_group(
            input,
            line_begin,
            count - 1,
        )
    }
}

/// What the side panel shows for a byte: the byte itself where it is a space
/// or a printable ASCII character, a dot otherwise.
pub open spec fn panel_char(byte: u8) -> char {
    if 0x20 <= byte <= 0x7e {
        byte as char
    } else {
        '.'
    }
}

/// The number of bytes that the row starting at `line_begin` holds.
pub open spec fn row_len(input_len: nat, line_begin: nat) -> nat {
    if input_len <= line_begin {
        0
    } else if input_len - line_begin >= 16 {
        16
    } else {
        (input_len - line_begin) as nat
    }
}

/// The side panel of the row: one character for each byte that the row holds.
pub open spec fn ascii_panel(input: Seq<u8>, line_begin: nat) -> Seq<char> {
    Seq::new(row_len(input.len(), line_begin), |k: int| panel_char(input[line_begin + k]))
}

/// The row that starts at `line_begin`: the offset in at least eight digits
/// and a colon, eight groups, two spaces, the side panel.
pub open spec fn row_text(input: Seq<u8>, line_begin: nat) -> Seq<char> {
    zero_padded(hex_digits(line_begin), 8) + seq![':'] + hex_groups(input, line_begin as int, 8)
        + seq![' ', ' '] + ascii_panel(input, line_begin)
}

/// The width of the caret line for `offset`: the caret mark ends there.
pub open spec fn caret_width(offset: nat) -> nat {
    10 + 4 + (offset % 16) / 2 * 5 + (offset % 16) % 2 * 2
}

/// The caret line for `offset`: spaces, then the mark `^---`, whose caret
/// stands `caret_width(offset) - 4` characters into the line.
pub open spec fn caret_text(offset: nat) -> Seq<char> {
    repeated(' ', (caret_width(offset) - 4) as nat) + seq!['^', '-', '-', '-']
}

/// The first `count` groups take five characters each, and group `group` of
/// them stands at `5 * group`.
pub proof fn lemma_hex_groups_layout(input: Seq<u8>, line_begin: int, count: nat)
    ensures
        hex_groups(input, line_begin, count).len() == 5 * count,
        forall|group: int, j: int|
            0 <= group < count && 0 <= j < 5 ==> #[trigger] hex_groups(
                input,
                line_begin,
                count,
            )[5 * group + j] == hex_group(input, line_begin, group)[j],
    decreases count,
{
    if count > 0 {
        lemma_hex_groups_layout(input, line_begin, (count - 1) as nat);
        let before = hex_groups(input, line_begin, (count - 1) as nat);
        let last = hex_group(input, line_begin, count - 1);
        assert(last.len() == 5);
        assert forall|group: int, j: int| 0 <= group < count && 0 <= j < 5 implies #[trigger] (
        before + last)[5 * group + j] == hex_group(input, line_begin, group)[j] by {
            if group < count - 1 {
                assert(before[5 * group + j] == hex_group(input, line_begin, group)[j]);
            }
        }
    }
}

/// The caret stands under the byte it marks: in the row that holds `offset`,
/// the two characters at and after the caret's place are the two digits of
/// the byte at `offset`. This holds where the row's offset takes the eight
/// digits that the layout allows for.
pub proof fn lemma_caret_marks_byte(input: Seq<u8>, offset: nat)
    requires
        offset < input.len(),
        row_start(offset) < 0x1_0000_0000,
    ensures
        caret_text(offset).len() == caret_width(offset),
        caret_text(offset)[caret_width(offset) - 4] == '^',
        caret_width(offset) - 3 < row_text(input, row_start(offset)).len(),
        row_text(input, row_start(offset))[caret_width(offset) - 4] == digit_char(
            input[offset as int] as int / 16,
        ),
        row_text(input, row_start(offset))[caret_width(offset) - 3] == digit_char(
            input[offset as int] as int % 16,
        ),
{
    let begin = row_start(offset);
    let within = offset % 16;
    let group = (within / 2) as int;
    let half = (within % 2) as int;
    let header = zero_padded(hex_digits(begin), 8) + seq![':'];
    let groups = hex_groups(input, begin as int, 8);
    lemma_hex_digits_len(begin);
    lemma_hex_groups_layout(input, begin as int, 8);
    assert(header.len() == 9);
    assert(begin + 2 * group + half == offset);
    let place = caret_width(offset) - 4;
    assert(place == 9 + 5 * group + (1 + 2 * half));
    let column = hex_column(input, offset as int);
    assert(column == seq![
        digit_char(input[offset as int] as int / 16),
        digit_char(input[offset as int] as int % 16),
    ]);
    let unit = hex_group(input, begin as int, group);
    assert(groups[5 * group + (1 + 2 * half)] == unit[1 + 2 * half]);
    assert(groups[5 * group + (2 + 2 * half)] == unit[2 + 2 * half]);
    assert(unit[1 + 2 * half] == column[0]);
    assert(unit[2 + 2 * half] == column[1]);
    let row = row_text(input, begin);
    assert(row[place] == groups[place - 9]);
    assert(row[place + 1] == groups[place + 1 - 9]);
}

/// The start of the row of 16 bytes that holds `offset`.
pub fn line_begin(offset: usize) -> (begin: usize)
    ensures
        begin == row_start(offset as nat),
        begin <= offset,
        begin % 16 == 0,
        offset - begin < 16,
{
    offset - offset % 16
}

/// The width of the caret line for `offset`.
pub fn caret_column(offset: usize) -> (column: usize)
    ensures
        column == caret_width(offset as nat),
        column == 10 + 4 + (offset % 16) / 2 * 5 + (offset % 16) % 2 * 2,
        14 <= column <= 51,
{
    let line_offset = offset % 16;
    10 + 4 + (line_offset / 2) * 5 + (line_offset % 2) * 2
}

/// Appends the column for the byte at `line_begin + k`.
fn push_hex_column(text: &mut String, input: &[u8], line_begin: usize, k: usize)
    requires
        line_begin <= input@.len(),
        k < 16,
    ensures
        final(text)@ == old(text)@ + hex_column(input@, line_begin + k),
{
    if k < input.len() - line_begin {
        push_hex_byte(text, input[line_begin + k]);
    } else {
        push_char(text, ' ');
        push_char(text, ' ');
    }
}

/// The row of the hexdump that starts at `line_begin`.
pub fn hexdump_row(input: &[u8], line_begin: usize) -> (row: String)
    requires
        line_begin <= input@.len(),
    ensures
        row@ == row_text(input@, line_begin as nat),
{
    let mut row = String::new();
    push_hex_padded(&mut row, line_begin, 8);
    push_char(&mut row, ':');
    let ghost header = row@;
    let mut group: usize = 0;
    while group < 8
        invariant
            group <= 8,
            line_begin <= input@.len(),
            row@ == header + hex_groups(input@, line_begin as int, group as nat),
        decreases 8 - group,
    {
        push_char(&mut row, ' ');
        push_hex_column(&mut row, input, line_begin, 2 * group);
        push_hex_column(&mut row, input, line_begin, 2 * group + 1);
        group += 1;
    }
    push_char(&mut row, ' ');
    push_char(&mut row, ' ');
    let ghost body = row@;
    let remaining = input.len() - line_begin;
    let mut k: usize = 0;
    while k < 16 && k < remaining
        invariant
            k <= 16,
            k <= remaining,
            remaining == input@.len() - line_begin,
            input@.len() <= usize::MAX,
            row@ == body + Seq::new(k as nat, |j: int| panel_char(input@[line_begin + j])),
        decreases 16 - k,
    {
        let byte = input[line_begin + k];
        if byte >= 0x20 && byte <= 0x7e {
            push_char(&mut row, byte as char);
        } else {
            push_char(&mut row, '.');
        }
        k += 1;
    }
    row
}

/// The caret line for `offset`.
pub fn caret_line(offset: usize) -> (line: String)
    ensures
        line@ == caret_text(offset as nat),
{
    let mut line = String::new();
    push_repeated(&mut line, ' ', caret_column(offset) - 4);
    push_char(&mut line, '^');
    push_char(&mut line, '-');
    push_char(&mut line, '-');
    push_char(&mut line, '-');
    line
}

} // verus!
