//! The items of `nom` and `std` that the library relies on without proof.

use nom::error::ErrorKind;
use nom::Needed;
use nom::Offset;
use vstd::prelude::*;

verus! {

/// `nom::error::ErrorKind`, the classifier that a parsing primitive attaches
/// to its failure. The library carries it through and never looks inside.
#[verifier::external_type_specification]
#[verifier::external_body]
pub struct ExErrorKind(ErrorKind);

/// `nom::Needed`, the amount of missing input reported with an incomplete
/// parse. The library carries it through and never looks inside.
#[verifier::external_type_specification]
#[verifier::external_body]
pub struct ExNeeded(Needed);

/// The text that `ErrorKind`'s `Debug` implementation writes for a classifier.
pub uninterp spec fn kind_debug_text(kind: ErrorKind) -> Seq<char>;

/// Formats a classifier with its `Debug` implementation (`{:?}`). The
/// implementation is derived on a field-less enum, so the text depends on the
/// value alone; the contract only gives that text its name.
#[verifier::external_body]
pub(crate) fn debug_text(kind: &ErrorKind) -> (text: String)
    ensures
        text@ == kind_debug_text(*kind),
{
    format!("{:?}", kind)
}

/// `ErrorKind`'s `==`. The implementation is derived on a field-less enum: two
/// classifiers are equal exactly when they are the same classifier.
#[verifier::external_body]
pub(crate) fn same_kind(a: &ErrorKind, b: &ErrorKind) -> (same: bool)
    ensures
        same == (*a == *b),
{
    a == b
}

/// `nom::Offset::offset` on byte slices: the distance from the first byte of
/// `input` to the first byte of the sub-slice `input[start..end]`. The sub-slice
/// begins `start` bytes into `input`, so that distance is `start`, also when the
/// sub-slice is empty and sits at the end of `input`.
#[verifier::external_body]
pub(crate) fn span_offset(input: &[u8], start: usize, end: usize) -> (distance: usize)
    requires
        start <= end <= input@.len(),
    ensures
        distance == start,
{
    input.offset(&input[start..end])
}

/// `String::push`: appends one character to the end of the string.
#[verifier::external_body]
pub(crate) fn push_char(text: &mut String, c: char)
    ensures
        final(text)@ == old(text)@.push(c),
{
    text.push(c)
}

} // verus!
