//! What a classifier hands back when the line is of its kind.

use vstd::prelude::*;

verus! {

/// A line that was recognised at the start of an input.
#[derive(Clone, Copy, Debug, PartialEq, Eq)]
pub struct LineMatch<'a> {
    /// Number of bytes of the input that belong to the line.
    pub consumed: usize,
    /// The input behind those bytes.
    pub remainder: &'a [u8],
}

impl<'a> LineMatch<'a> {
    /// The match cuts `input` in two: `consumed` bytes, then `remainder`,
    /// which is all that follows them.
    pub open spec fn splits(&self, input: Seq<u8>) -> bool {
        &&& self.consumed + self.remainder@.len() == input.len()
        &&& self.remainder@ == input.skip(self.consumed as int)
    }
}

/// The opening of a fenced code block that was recognised at the start of
/// an input.
#[derive(Clone, Copy, Debug, PartialEq, Eq)]
pub struct FenceMatch<'a> {
    /// Number of bytes of the input up to the end of the fence.
    pub consumed: usize,
    /// The input behind the fence.
    pub remainder: &'a [u8],
    /// Number of fence bytes in the run.
    pub fence_length: usize,
    /// The byte the fence is made of, a backtick or a tilde.
    pub fence_char: u8,
}

impl<'a> FenceMatch<'a> {
    /// The match cuts `input` in two: `consumed` bytes, then `remainder`,
    /// which is all that follows them.
    pub open spec fn splits(&self, input: Seq<u8>) -> bool {
        &&& self.consumed + self.remainder@.len() == input.len()
        &&& self.remainder@ == input.skip(self.consumed as int)
    }
}

} // verus!
