//! The heap: the blocks in address order, the break, and the operations
//! that change them.

use crate::block::{Block, BlockModel, MIN_BLOCK_SIZE};
use crate::error::HeapError;
use crate::laws::{
    lemma_allocate_keeps_wf, lemma_coalesce_keeps_wf, lemma_free_keeps_wf, lemma_grow_keeps_wf,
    lemma_split_keeps_wf,
};
use crate::model::HeapModel;
use vstd::prelude::*;

verus! {

/// The models of a sequence of blocks, one by one.
spec fn models(blocks: Seq<Block>) -> Seq<BlockModel> {
    blocks.map_values(|b: Block| b@)
}

/// A heap. Its blocks always cover the addresses from zero to the break
/// without a gap or an overlap: no operation leaves it otherwise, and one
/// that is turned down leaves it untouched.
pub struct Heap {
    blocks: Vec<Block>,
    end_of_heap: i32,
}

impl View for Heap {
    type V = HeapModel;

    closed spec fn view(&self) -> HeapModel {
        HeapModel { blocks: models(self.blocks@), end_of_heap: self.end_of_heap as int }
    }
}

impl Heap {
    /// Every heap is well-formed, at every moment.
    #[verifier::type_invariant]
    spec fn inv(&self) -> bool {
        self@.wf()
    }

    /// An empty heap, whose break is at zero.
    pub fn new() -> (heap: Heap)
        ensures
            heap@ == HeapModel::empty(),
            heap@.wf(),
    {
        let heap = Heap { blocks: Vec::new(), end_of_heap: 0 };
        assert(heap@.blocks =~= Seq::empty());
        heap
    }

    /// The number of blocks.
    pub fn len(&self) -> (n: usize)
        ensures
            n == self@.blocks.len(),
            self@.wf(),
    {
        proof {
            use_type_invariant(self);
        }
        self.blocks.len()
    }

    /// The break: the address just past the last block.
    pub fn end_of_heap(&self) -> (top: i32)
        ensures
            top == self@.end_of_heap,
            self@.wf(),
    {
        proof {
            use_type_invariant(self);
        }
        self.end_of_heap
    }

    /// The block at `index`.
    pub fn block(&self, index: usize) -> (b: Block)
        requires
            index < self@.blocks.len(),
        ensures
            b@ == self@.blocks[index as int],
            b@.valid(),
            self@.wf(),
    {
        proof {
            use_type_invariant(self);
            assert(self@.blocks[index as int].valid());
        }
        self.blocks[index]
    }

    /// The block at `index`, if there is one.
    pub fn get(&self, index: usize) -> (b: Option<Block>)
        ensures
            b is Some <==> index < self@.blocks.len(),
            b matches Some(found) ==> found@ == self@.blocks[index as int],
    {
        if index < self.blocks.len() {
            Some(self.blocks[index])
        } else {
            None
        }
    }

    /// Takes the heap apart and leaves an empty one in its place.
    fn take_parts(&mut self) -> (parts: (Vec<Block>, i32))
        ensures
            parts.0@ == old(self).blocks@,
            parts.1 == old(self).end_of_heap,
            old(self)@.wf(),
    {
        proof {
            use_type_invariant(&*self);
        }
        let mut taken = Heap::new();
        std::mem::swap(self, &mut taken);
        let Heap { blocks, end_of_heap } = taken;
        (blocks, end_of_heap)
    }

    /// Moves the break up to `new_break` and covers the new addresses with
    /// one free block. Fails with `InvalidGrow`, and changes nothing, where
    /// `new_break` does not lie above the break.
    pub fn grow(&mut self, new_break: i32) -> (res: Result<(), HeapError>)
        ensures
            old(self)@.settles(old(self)@.grow(new_break as int), res, final(self)@),
            res is Err ==> final(self)@ == old(self)@,
            final(self)@.wf(),
    {
        proof {
            use_type_invariant(&*self);
            lemma_grow_keeps_wf(self@, new_break as int);
        }
        if new_break <= self.end_of_heap {
            return Err(HeapError::InvalidGrow);
        }
        let ghost before = self@;
        let (mut blocks, end_of_heap) = self.take_parts();
        proof {
            let len = before.blocks.len() as int;
            if len > 0 {
                assert(before.blocks[len - 1].valid());
                assert(before.block_end(len - 1) == before.next_start(len - 1));
            }
        }
        let added = Block {
            offset: end_of_heap,
            size: new_break - end_of_heap,
            allocated: false,
            used: 0,
        };
        blocks.push(added);
        proof {
            assert(models(blocks@) =~= before.grow(new_break as int)->Ok_0.blocks);
        }
        *self = Heap { blocks, end_of_heap: new_break };
        Ok(())
    }

    /// Hands the free block `index` to an occupant that needs `requested`
    /// bytes; the block keeps its offset and its size. Fails, and changes
    /// nothing, with `AlreadyAllocated` where the block is in use, else with
    /// `InvalidSize` where `requested` is negative, else with
    /// `InsufficientSpace` where the block is smaller than `requested`.
    pub fn allocate(&mut self, index: usize, requested: i32) -> (res: Result<(), HeapError>)
        requires
            index < old(self)@.blocks.len(),
        ensures
            old(self)@.settles(
                old(self)@.allocate(index as int, requested as int),
                res,
                final(self)@,
            ),
            res is Err ==> final(self)@ == old(self)@,
            final(self)@.wf(),
    {
        proof {
            use_type_invariant(&*self);
            lemma_allocate_keeps_wf(self@, index as int, requested as int);
        }
        let b = self.blocks[index];
        if b.allocated {
            return Err(HeapError::AlreadyAllocated);
        }
        if requested < 0 {
            return Err(HeapError::InvalidSize);
        }
        if requested > b.size {
            return Err(HeapError::InsufficientSpace);
        }
        let ghost before = self@;
        let (mut blocks, end_of_heap) = self.take_parts();
        blocks.set(index, Block { allocated: true, used: requested, ..b });
        proof {
            assert(models(blocks@) =~= before.allocate(index as int, requested as int)->Ok_0.blocks);
        }
        *self = Heap { blocks, end_of_heap };
        Ok(())
    }

    /// Takes block `index` back from its occupant, so that nothing of it is
    /// in use. Neighbouring free blocks are not merged. Fails with
    /// `NotAllocated`, and changes nothing, where the block is free.
    pub fn free(&mut self, index: usize) -> (res: Result<(), HeapError>)
        requires
            index < old(self)@.blocks.len(),
        ensures
            old(self)@.settles(old(self)@.free(index as int), res, final(self)@),
            res is Err ==> final(self)@ == old(self)@,
            final(self)@.wf(),
    {
        proof {
            use_type_invariant(&*self);
            lemma_free_keeps_wf(self@, index as int);
        }
        let b = self.blocks[index];
        if !b.allocated {
            return Err(HeapError::NotAllocated);
        }
        let ghost before = self@;
        let (mut blocks, end_of_heap) = self.take_parts();
        blocks.set(index, Block { allocated: false, used: 0, ..b });
        proof {
            assert(models(blocks@) =~= before.free(index as int)->Ok_0.blocks);
        }
        *self = Heap { blocks, end_of_heap };
        Ok(())
    }

    /// Cuts the last `new_right_size` bytes off block `index` and makes a
    /// free block of them, right after what is left. The block keeps its
    /// offset and its occupant. Fails, and changes nothing, with
    /// `BelowMinimumSize` where `new_right_size` is under
    /// [`MIN_BLOCK_SIZE`], else with `ExceedsAvailable` where it is more
    /// than the block can give up: its size if it is free, and what its
    /// occupant leaves unused if it is not.
    pub fn split(&mut self, index: usize, new_right_size: i32) -> (res: Result<(), HeapError>)
        requires
            index < old(self)@.blocks.len(),
        ensures
            old(self)@.settles(
                old(self)@.split(index as int, new_right_size as int),
                res,
                final(self)@,
            ),
            res is Err ==> final(self)@ == old(self)@,
            final(self)@.wf(),
    {
        proof {
            use_type_invariant(&*self);
            lemma_split_keeps_wf(self@, index as int, new_right_size as int);
            assert(self@.blocks[index as int].valid());
            assert(self@.block_end(index as int) == self@.next_start(index as int));
        }
        let b = self.blocks[index];
        if new_right_size < MIN_BLOCK_SIZE {
            return Err(HeapError::BelowMinimumSize);
        }
        let available = if b.allocated {
            b.size - b.used
        } else {
            b.size
        };
        if new_right_size > available {
            return Err(HeapError::ExceedsAvailable);
        }
        let ghost before = self@;
        let (mut blocks, end_of_heap) = self.take_parts();
        let left = Block { size: b.size - new_right_size, ..b };
        let right = Block {
            offset: b.offset + b.size - new_right_size,
            size: new_right_size,
            allocated: false,
            used: 0,
        };
        blocks.set(index, left);
        assert(index < blocks.len());
        blocks.insert(index + 1, right);
        proof {
            assert(models(blocks@) =~= before.split(
                index as int,
                new_right_size as int,
            )->Ok_0.blocks);
        }
        *self = Heap { blocks, end_of_heap };
        Ok(())
    }

    /// Merges the free block `right_index` into its free left neighbour
    /// `left_index`, which keeps its offset and takes the sum of both sizes.
    /// The blocks behind the merged one move down by one index. Fails, and
    /// changes nothing, with `NotAdjacent` where the two indices do not name
    /// a block and the block right after it, else with `BlockAllocated`
    /// where one of the two is in use.
    pub fn coalesce(&mut self, left_index: usize, right_index: usize) -> (res: Result<
        (),
        HeapError,
    >)
        ensures
            old(self)@.settles(
                old(self)@.coalesce(left_index as int, right_index as int),
                res,
                final(self)@,
            ),
            res is Err ==> final(self)@ == old(self)@,
            final(self)@.wf(),
    {
        proof {
            use_type_invariant(&*self);
            lemma_coalesce_keeps_wf(self@, left_index as int, right_index as int);
        }
        if right_index >= self.blocks.len() || left_index >= right_index || right_index - left_index
            != 1 {
            return Err(HeapError::NotAdjacent);
        }
        let l = self.blocks[left_index];
        let r = self.blocks[right_index];
        if l.allocated || r.allocated {
            return Err(HeapError::BlockAllocated);
        }
        proof {
            assert(self@.blocks[left_index as int].valid());
            assert(self@.blocks[right_index as int].valid());
            assert(self@.block_end(left_index as int) == self@.next_start(left_index as int));
            assert(self@.block_end(right_index as int) == self@.next_start(right_index as int));
        }
        let ghost before = self@;
        let (mut blocks, end_of_heap) = self.take_parts();
        blocks.set(left_index, Block { size: l.size + r.size, ..l });
        blocks.remove(right_index);
        proof {
            assert(models(blocks@) =~= before.coalesce(
                left_index as int,
                right_index as int,
            )->Ok_0.blocks);
        }
        *self = Heap { blocks, end_of_heap };
        Ok(())
    }
}

} // verus!
