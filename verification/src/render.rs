//! The renderer: a trace and the buffer it points into, as a report.

use crate::hexdump::caret_line;
use crate::hexdump::caret_text;
use crate::hexdump::hexdump_row;
use crate::hexdump::line_begin;
use crate::hexdump::row_start;
use crate::hexdump::row_text;
use crate::outside::debug_text;
use crate::outside::kind_debug_text;
use crate::position::offset;
use crate::position::Position;
use crate::text::decimal_digits;
use crate::text::hex_digits;
use crate::text::push_decimal;
use crate::text::push_hex;
use crate::trace::label_text;
use crate::trace::VerboseError;
use crate::trace::VerboseErrorKind;
use vstd::prelude::*;
use vstd::string::*;

verus! {

/// The annotation of an entry as text: a label as it is, a classifier as its
/// `Debug` text.
pub open spec fn annotation_text(kind: VerboseErrorKind) -> Seq<char> {
    match kind {
        VerboseErrorKind::Context(label) => label@,
        VerboseErrorKind::Nom(classifier) => kind_debug_text(classifier),
    }
}

/// The line that stands for entry `index` when the buffer is empty.
pub open spec fn empty_input_text(index: nat, annotation: Seq<char>) -> Seq<char> {
    decimal_digits(index) + ": in "@ + annotation + ", got empty input\n\n"@
}

/// The block of three lines for the label `label` of entry `index`, recorded
/// `offset` bytes into `input`: a heading, the row of the hexdump that holds
/// the offset, and the caret under the byte; then an empty line.
pub open spec fn context_block_text(
    input: Seq<u8>,
    index: nat,
    offset: nat,
    label: Seq<char>,
) -> Seq<char> {
    decimal_digits(index) + ": at offset 0x"@ + hex_digits(offset) + ", "@ + label + ":\n"@
        + row_text(input, row_start(offset)) + "\n"@ + caret_text(offset) + "\n\n"@
}

/// What the report holds for the entry `entry` at place `index` of the trace.
/// Against an empty buffer every entry gets its line. Otherwise a label gets
/// its block, and a classifier gets nothing.
pub open spec fn entry_text(
    input: Seq<u8>,
    index: nat,
    entry: (Position, VerboseErrorKind),
) -> Seq<char> {
    if input.len() == 0 {
        empty_input_text(index, annotation_text(entry.1))
    } else {
        match entry.1 {
            VerboseErrorKind::Context(label) => context_block_text(
                input,
                index,
                entry.0.start as nat,
                label@,
            ),
            VerboseErrorKind::Nom(_) => Seq::empty(),
        }
    }
}

/// The parts of the report, one for each entry of the trace, in its order.
pub open spec fn blocks(input: Seq<u8>, trace: Seq<(Position, VerboseErrorKind)>) -> Seq<
    Seq<char>,
> {
    Seq::new(trace.len(), |k: int| entry_text(input, k as nat, trace[k]))
}

/// The report: the parts, one after the other.
pub open spec fn report_text(input: Seq<u8>, trace: Seq<(Position, VerboseErrorKind)>) -> Seq<
    char,
> {
    blocks(input, trace).flatten()
}

/// Whether every position of the trace lies inside a buffer of `buffer_len` bytes.
pub open spec fn positions_within(
    trace: Seq<(Position, VerboseErrorKind)>,
    buffer_len: nat,
) -> bool {
    forall|k: int| 0 <= k < trace.len() ==> (#[trigger] trace[k]).0.within(buffer_len)
}

/// Against an empty buffer the report has one part for each entry, in the
/// order of the trace, and each part is the line for that entry and nothing
/// more: the place of the entry, its annotation, and the note that the input
/// was empty. No row of a hexdump and no caret appear.
pub proof fn lemma_empty_buffer_lines(input: Seq<u8>, trace: Seq<(Position, VerboseErrorKind)>)
    requires
        input.len() == 0,
    ensures
        blocks(input, trace).len() == trace.len(),
        forall|k: int|
            0 <= k < trace.len() ==> #[trigger] blocks(input, trace)[k] == decimal_digits(
                k as nat,
            ) + ": in "@ + annotation_text(trace[k].1) + ", got empty input\n\n"@,
        report_text(input, trace) == blocks(input, trace).flatten(),
{
}

/// Against an empty buffer the positions play no part: two traces with the
/// same annotations in the same order give the same report.
pub proof fn lemma_empty_buffer_ignores_positions(
    input: Seq<u8>,
    one: Seq<(Position, VerboseErrorKind)>,
    other: Seq<(Position, VerboseErrorKind)>,
)
    requires
        input.len() == 0,
        one.len() == other.len(),
        forall|k: int| 0 <= k < one.len() ==> (#[trigger] one[k]).1 == other[k].1,
    ensures
        report_text(input, one) == report_text(input, other),
{
    assert(blocks(input, one) =~= blocks(input, other));
}

/// Against a buffer that holds bytes, a classifier adds nothing to the
/// report and a label adds a block that is not empty: the number of blocks in
/// the report is the number of labels in the trace, not the length of the
/// trace. A trace that holds classifiers alone renders as the empty text.
pub proof fn lemma_classifiers_stay_silent(
    input: Seq<u8>,
    trace: Seq<(Position, VerboseErrorKind)>,
)
    requires
        input.len() > 0,
    ensures
        forall|k: int|
            0 <= k < trace.len() && trace[k].1 is Nom ==> (#[trigger] blocks(
                input,
                trace,
            )[k]).len() == 0,
        forall|k: int|
            0 <= k < trace.len() && trace[k].1 is Context ==> (#[trigger] blocks(
                input,
                trace,
            )[k]).len() > 0,
        (forall|k: int| 0 <= k < trace.len() ==> (#[trigger] trace[k]).1 is Nom) ==> report_text(
            input,
            trace,
        ) == Seq::<char>::empty(),
{
    let parts = blocks(input, trace);
    assert forall|k: int| 0 <= k < trace.len() && trace[k].1 is Context implies (
    #[trigger] parts[k]).len() > 0 by {
        let entry = trace[k];
        assert(parts[k] == context_block_text(
            input,
            k as nat,
            entry.0.start as nat,
            annotation_text(entry.1),
        ));
        assert(caret_text(entry.0.start as nat).len() >= 4);
    }
    if forall|k: int| 0 <= k < trace.len() ==> (#[trigger] trace[k]).1 is Nom {
        assert forall|k: int| 0 <= k < parts.len() implies (#[trigger] parts[k]).len() <= 0 by {
            assert(trace[k].1 is Nom);
        }
        parts.lemma_flatten_length_le_mul(0);
        parts.lemma_flatten_and_flatten_alt_are_equivalent();
        assert(parts.flatten().len() == 0);
        assert(parts.flatten() =~= Seq::<char>::empty());
    }
}

/// The line that stands for entry `index` when the buffer is empty.
pub fn empty_input_line(index: usize, annotation: &str) -> (line: String)
    ensures
        line@ == empty_input_text(index as nat, annotation@),
{
    let mut line = String::new();
    push_decimal(&mut line, index);
    line.append(": in ");
    line.append(annotation);
    line.append(", got empty input\n\n");
    line
}

/// The block for the label `label` of entry `index`, recorded `offset` bytes
/// into `input`.
pub fn context_block(input: &[u8], index: usize, offset: usize, label: &str) -> (block: String)
    requires
        offset <= input@.len(),
    ensures
        block@ == context_block_text(input@, index as nat, offset as nat, label@),
{
    let mut block = String::new();
    push_decimal(&mut block, index);
    block.append(": at offset 0x");
    push_hex(&mut block, offset);
    block.append(", ");
    block.append(label);
    block.append(":\n");
    let row = hexdump_row(input, line_begin(offset));
    block.append(row.as_str());
    block.append("\n");
    let caret = caret_line(offset);
    block.append(caret.as_str());
    block.append("\n\n");
    block
}

/// Renders `e`, a trace of failures in parsing `input`, as a report: one part
/// for each entry, in the order of the trace, innermost failure first.
pub fn convert_error(input: &[u8], e: VerboseError<Position>) -> (report: String)
    requires
        positions_within(e@, input@.len()),
    ensures
        report@ == report_text(input@, e@),
{
    let mut report = String::new();
    let ghost parts = blocks(input@, e@);
    let mut index: usize = 0;
    proof {
        assert(parts.take(0) =~= Seq::<Seq<char>>::empty());
    }
    while index < e.errors.len()
        invariant
            index <= e@.len(),
            parts == blocks(input@, e@),
            positions_within(e@, input@.len()),
            report@ == parts.take(index as int).flatten(),
        decreases e@.len() - index,
    {
        let ghost before = report@;
        let position = &e.errors[index].0;
        assert(e@[index as int].0.within(input@.len()));
        let substring_offset = offset(input, position);
        if input.len() == 0 {
            match &e.errors[index].1 {
                VerboseErrorKind::Context(label) => {
                    let line = empty_input_line(index, label_text(label));
                    report.append(line.as_str());
                },
                VerboseErrorKind::Nom(classifier) => {
                    let name = debug_text(classifier);
                    let line = empty_input_line(index, name.as_str());
                    report.append(line.as_str());
                },
            }
        } else {
            match &e.errors[index].1 {
                VerboseErrorKind::Context(label) => {
                    let block = context_block(input, index, substring_offset, label_text(label));
                    report.append(block.as_str());
                },
                VerboseErrorKind::Nom(_) => {},
            }
        }
        proof {
            let part = parts[index as int];
            assert(part == entry_text(input@, index as nat, e@[index as int]));
            assert(report@ =~= before + part);
            assert(parts.take(index + 1) =~= parts.take(index as int).push(part));
            parts.take(index as int).lemma_flatten_push(part);
        }
        index += 1;
    }
    proof {
        assert(parts.take(index as int) =~= parts);
    }
    report
}

} // verus!
