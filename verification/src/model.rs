//! The heap as a mathematical value, and what each operation makes of it.

use crate::block::{BlockModel, MIN_BLOCK_SIZE};
use crate::error::HeapError;
use vstd::prelude::*;

verus! {

/// One call of an operation of the heap, with its arguments.
pub enum HeapOp {
    Grow { new_break: int },
    Allocate { index: int, requested: int },
    Free { index: int },
    Split { index: int, new_right_size: int },
    Coalesce { left_index: int, right_index: int },
}

/// The state of a heap: its blocks in address order, and the break.
pub struct HeapModel {
    pub blocks: Seq<BlockModel>,
    pub end_of_heap: int,
}

impl HeapModel {
    /// The heap before anything was added to it.
    pub open spec fn empty() -> HeapModel {
        HeapModel { blocks: Seq::empty(), end_of_heap: 0 }
    }

    /// Whether `i` names a block.
    pub open spec fn has(self, i: int) -> bool {
        0 <= i < self.blocks.len()
    }

    /// The address just past block `i`.
    pub open spec fn block_end(self, i: int) -> int {
        self.blocks[i].end()
    }

    /// The address at which whatever follows block `i` begins: the next
    /// block, or the break after the last one.
    pub open spec fn next_start(self, i: int) -> int {
        if i + 1 < self.blocks.len() {
            self.blocks[i + 1].offset
        } else {
            self.end_of_heap
        }
    }

    /// The blocks cover the addresses from zero to the break without a gap
    /// and without an overlap.
    pub open spec fn contiguous(self) -> bool {
        &&& self.blocks.len() == 0 ==> self.end_of_heap == 0
        &&& self.blocks.len() > 0 ==> self.blocks[0].offset == 0
        &&& forall|i: int| self.has(i) ==> #[trigger] self.block_end(i) == self.next_start(i)
    }

    /// What holds of every heap that the operations can produce.
    pub open spec fn wf(self) -> bool {
        &&& self.contiguous()
        &&& forall|i: int| self.has(i) ==> (#[trigger] self.blocks[i]).valid()
    }

    /// Moves the break up to `new_break` and covers the new addresses with
    /// one free block.
    pub open spec fn grow(self, new_break: int) -> Result<HeapModel, HeapError> {
        if new_break <= self.end_of_heap {
            Err(HeapError::InvalidGrow)
        } else {
            Ok(
                HeapModel {
                    blocks: self.blocks.push(
                        BlockModel {
                            offset: self.end_of_heap,
                            size: new_break - self.end_of_heap,
                            allocated: false,
                            used: 0,
                        },
                    ),
                    end_of_heap: new_break,
                },
            )
        }
    }

    /// Hands block `index` to an occupant that needs `requested` bytes.
    pub open spec fn allocate(self, index: int, requested: int) -> Result<HeapModel, HeapError>
        recommends
            self.has(index),
    {
        let b = self.blocks[index];
        if b.allocated {
            Err(HeapError::AlreadyAllocated)
        } else if requested < 0 {
            Err(HeapError::InvalidSize)
        } else if requested > b.size {
            Err(HeapError::InsufficientSpace)
        } else {
            Ok(
                HeapModel {
                    blocks: self.blocks.update(
                        index,
                        BlockModel { allocated: true, used: requested, ..b },
                    ),
                    ..self
                },
            )
        }
    }

    /// Takes block `index` back from its occupant.
    pub open spec fn free(self, index: int) -> Result<HeapModel, HeapError>
        recommends
            self.has(index),
    {
        let b = self.blocks[index];
        if !b.allocated {
            Err(HeapError::NotAllocated)
        } else {
            Ok(
                HeapModel {
                    blocks: self.blocks.update(index, BlockModel { allocated: false, used: 0, ..b }),
                    ..self
                },
            )
        }
    }

    /// Cuts the last `new_right_size` bytes off block `index` and makes a
    /// free block of them, right after what is left of the block.
    pub open spec fn split(self, index: int, new_right_size: int) -> Result<HeapModel, HeapError>
        recommends
            self.has(index),
    {
        let b = self.blocks[index];
        if new_right_size < MIN_BLOCK_SIZE {
            Err(HeapError::BelowMinimumSize)
        } else if new_right_size > b.available() {
            Err(HeapError::ExceedsAvailable)
        } else {
            let left = BlockModel { size: b.size - new_right_size, ..b };
            let right = BlockModel {
                offset: b.offset + b.size - new_right_size,
                size: new_right_size,
                allocated: false,
                used: 0,
            };
            Ok(
                HeapModel {
                    blocks: self.blocks.update(index, left).insert(index + 1, right),
                    ..self
                },
            )
        }
    }

    /// Merges the free block `right_index` into its free left neighbour
    /// `left_index`.
    pub open spec fn coalesce(self, left_index: int, right_index: int) -> Result<
        HeapModel,
        HeapError,
    > {
        if !(right_index == left_index + 1 && self.has(left_index) && self.has(right_index)) {
            Err(HeapError::NotAdjacent)
        } else if self.blocks[left_index].allocated || self.blocks[right_index].allocated {
            Err(HeapError::BlockAllocated)
        } else {
            let l = self.blocks[left_index];
            let r = self.blocks[right_index];
            Ok(
                HeapModel {
                    blocks: self.blocks.update(left_index, BlockModel { size: l.size + r.size, ..l })
                        .remove(right_index),
                    ..self
                },
            )
        }
    }

    /// Whether the heap takes the call at all: an operation on one block
    /// needs the index of a block.
    pub open spec fn admits(self, op: HeapOp) -> bool {
        match op {
            HeapOp::Grow { .. } => true,
            HeapOp::Allocate { index, .. } => self.has(index),
            HeapOp::Free { index } => self.has(index),
            HeapOp::Split { index, .. } => self.has(index),
            HeapOp::Coalesce { .. } => true,
        }
    }

    /// What the operation makes of the heap, or why it is turned down.
    pub open spec fn attempt(self, op: HeapOp) -> Result<HeapModel, HeapError>
        recommends
            self.admits(op),
    {
        match op {
            HeapOp::Grow { new_break } => self.grow(new_break),
            HeapOp::Allocate { index, requested } => self.allocate(index, requested),
            HeapOp::Free { index } => self.free(index),
            HeapOp::Split { index, new_right_size } => self.split(index, new_right_size),
            HeapOp::Coalesce { left_index, right_index } => self.coalesce(left_index, right_index),
        }
    }

    /// The heap after the call: changed where the operation goes through,
    /// the same where it is turned down or not taken.
    pub open spec fn apply(self, op: HeapOp) -> HeapModel {
        if self.admits(op) && self.attempt(op) is Ok {
            self.attempt(op)->Ok_0
        } else {
            self
        }
    }

    /// The heap that a sequence of calls leaves, starting from the empty one.
    pub open spec fn run(ops: Seq<HeapOp>) -> HeapModel
        decreases ops.len(),
    {
        if ops.len() == 0 {
            HeapModel::empty()
        } else {
            Self::run(ops.drop_last()).apply(ops.last())
        }
    }

    /// What a call that reports `res` has made of the heap `self`, given
    /// what the operation makes of it: the new state and `Ok` where the
    /// operation goes through, the old state and the error where it does not.
    pub open spec fn settles(
        self,
        step: Result<HeapModel, HeapError>,
        res: Result<(), HeapError>,
        after: HeapModel,
    ) -> bool {
        match step {
            Ok(next) => res == Ok::<(), HeapError>(()) && after == next,
            Err(e) => res == Err::<(), HeapError>(e) && after == self,
        }
    }
}

} // verus!
