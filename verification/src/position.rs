//! Positions: where in the input buffer a failure was recorded.

use crate::outside::span_offset;
use vstd::prelude::*;

verus! {

/// A contiguous range of the input buffer, given by where it starts and how
/// many bytes it spans. An empty range at the very end of the buffer is a
/// position like any other.
#[derive(Clone, Copy, Debug, PartialEq, Eq, Structural)]
pub struct Position {
    /// The distance from the start of the buffer to the first byte of the range.
    pub start: usize,
    /// The number of bytes in the range.
    pub len: usize,
}

impl Position {
    /// Whether the range lies inside a buffer of `buffer_len` bytes.
    pub open spec fn within(self, buffer_len: nat) -> bool {
        self.start + self.len <= buffer_len
    }

    /// The range of `len` bytes that starts `start` bytes into the buffer.
    pub fn new(start: usize, len: usize) -> (position: Self)
        ensures
            position.start == start,
            position.len == len,
    {
        Position { start, len }
    }

    /// Whether the range lies inside `input`.
    pub fn lies_within(&self, input: &[u8]) -> (inside: bool)
        ensures
            inside == self.within(input@.len()),
    {
        self.start <= input.len() && self.len <= input.len() - self.start
    }
}

/// The distance from the start of `input` to the start of `position`.
pub fn offset(input: &[u8], position: &Position) -> (distance: usize)
    requires
        position.within(input@.len()),
    ensures
        distance == position.start,
        distance <= input@.len(),
{
    let _buffer_len = input.len();
    span_offset(input, position.start, position.start + position.len)
}

} // verus!
