//! The reasons for which a heap operation is turned down.

use vstd::prelude::*;

verus! {

/// Why a heap operation was rejected. Every rejection leaves the heap as it
/// was.
#[derive(Clone, Copy, Debug, PartialEq, Eq, Structural)]
pub enum HeapError {
    /// The new break does not lie above the current one.
    InvalidGrow,
    /// The block to allocate is already in use.
    AlreadyAllocated,
    /// The block to free is not in use.
    NotAllocated,
    /// The requested number of bytes is negative or could not be read.
    InvalidSize,
    /// The block is smaller than the requested number of bytes.
    InsufficientSpace,
    /// The part to split off is smaller than the smallest block.
    BelowMinimumSize,
    /// The part to split off is larger than what the block can give up.
    ExceedsAvailable,
    /// The two blocks to merge are not neighbours.
    NotAdjacent,
    /// One of the two blocks to merge is in use.
    BlockAllocated,
}

impl HeapError {
    /// The sentence that tells the user of the error.
    pub open spec fn text(self) -> Seq<char> {
        match self {
            HeapError::InvalidGrow => "The heap can only grow."@,
            HeapError::AlreadyAllocated => "This block is already allocated."@,
            HeapError::NotAllocated => "This block is not allocated."@,
            HeapError::InvalidSize => "Must allocate a positive amount."@,
            HeapError::InsufficientSpace => "The block is too small to store that amount!"@,
            HeapError::BelowMinimumSize => "The new block would be too small to be drawn."@,
            HeapError::ExceedsAvailable => "Can't split this block with given new size."@,
            HeapError::NotAdjacent => "Can't coalesce without a free neighbor."@,
            HeapError::BlockAllocated => "Can't coalesce a block that is allocated."@,
        }
    }

    /// The sentence that tells the user of the error.
    pub fn message(&self) -> (text: &'static str)
        ensures
            text@ == self.text(),
    {
        match self {
            HeapError::InvalidGrow => "The heap can only grow.",
            HeapError::AlreadyAllocated => "This block is already allocated.",
            HeapError::NotAllocated => "This block is not allocated.",
            HeapError::InvalidSize => "Must allocate a positive amount.",
            HeapError::InsufficientSpace => "The block is too small to store that amount!",
            HeapError::BelowMinimumSize => "The new block would be too small to be drawn.",
            HeapError::ExceedsAvailable => "Can't split this block with given new size.",
            HeapError::NotAdjacent => "Can't coalesce without a free neighbor.",
            HeapError::BlockAllocated => "Can't coalesce a block that is allocated.",
        }
    }

    /// No two errors are told in the same words.
    pub proof fn lemma_messages_differ(a: HeapError, b: HeapError)
        requires
            a != b,
        ensures
            a.text() != b.text(),
    {
        reveal_strlit("The heap can only grow.");
        reveal_strlit("This block is already allocated.");
        reveal_strlit("This block is not allocated.");
        reveal_strlit("Must allocate a positive amount.");
        reveal_strlit("The block is too small to store that amount!");
        reveal_strlit("The new block would be too small to be drawn.");
        reveal_strlit("Can't split this block with given new size.");
        reveal_strlit("Can't coalesce without a free neighbor.");
        reveal_strlit("Can't coalesce a block that is allocated.");
        if a.text().len() == b.text().len() {
            assert(a.text()[0] != b.text()[0]);
        }
    }
}

} // verus!
