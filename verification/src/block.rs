//! A single block of the heap.

use crate::geometry::{Point, Rect};
use vstd::prelude::*;

verus! {

/// Width of the gap that is left blank between two neighbouring blocks when
/// they are drawn.
pub const MEM_GAP: i32 = 1;

/// Height of the strip of blocks, and edge length of the growth handle.
pub const SBRK_MENU_PX: i32 = 100;

/// The smallest block that can be split off: one byte wider than the gap, so
/// that something of it remains visible.
pub const MIN_BLOCK_SIZE: i32 = 2;

/// A block as the specifications see it, with unbounded integers.
pub struct BlockModel {
    pub offset: int,
    pub size: int,
    pub allocated: bool,
    pub used: int,
}

impl BlockModel {
    /// The address just past the block.
    pub open spec fn end(self) -> int {
        self.offset + self.size
    }

    /// How many bytes a split may take away from the block: all of a free
    /// block, and of a block in use what its occupant does not need.
    pub open spec fn available(self) -> int {
        if self.allocated {
            self.size - self.used
        } else {
            self.size
        }
    }

    /// Whether a click at `p` lands on the block as it is drawn on the
    /// strip: from its offset to the gap before the next block, over the
    /// height of the strip.
    pub open spec fn covers(self, p: Point) -> bool {
        &&& self.offset <= p.x < self.offset + self.size - MEM_GAP
        &&& 0 <= p.y < SBRK_MENU_PX
    }

    /// What holds of every block of a heap: it starts at or above zero, its
    /// size is not negative, its occupant fits in it, and a free block has no
    /// occupant. A block may be empty: a split that takes all that a block
    /// can give up leaves nothing of it but its place.
    pub open spec fn valid(self) -> bool {
        &&& 0 <= self.offset
        &&& 0 <= self.size
        &&& 0 <= self.used <= self.size
        &&& !self.allocated ==> self.used == 0
    }
}

/// A contiguous region of the heap.
#[derive(Clone, Copy, Debug, PartialEq, Eq, Structural)]
pub struct Block {
    /// Address of the first byte.
    pub offset: i32,
    /// Length in bytes.
    pub size: i32,
    /// Whether the block is in use.
    pub allocated: bool,
    /// Bytes that the occupant needs; zero while the block is free.
    pub used: i32,
}

impl View for Block {
    type V = BlockModel;

    open spec fn view(&self) -> BlockModel {
        BlockModel {
            offset: self.offset as int,
            size: self.size as int,
            allocated: self.allocated,
            used: self.used as int,
        }
    }
}

impl Block {
    /// The region of the strip that the block is drawn in and answers clicks
    /// in: it starts at the block's offset and stops short of the next block
    /// by the gap.
    pub open spec fn region(self) -> Rect {
        Rect {
            x: self.offset,
            y: 0,
            width: (self.size - MEM_GAP) as i32,
            height: SBRK_MENU_PX,
        }
    }

    /// Computes the block's region on the strip.
    pub fn rect(&self) -> (r: Rect)
        requires
            i32::MIN <= self.size - MEM_GAP,
        ensures
            r == self.region(),
            forall|p: Point| r.covers(p) == self@.covers(p),
    {
        Rect { x: self.offset, y: 0, width: self.size - MEM_GAP, height: SBRK_MENU_PX }
    }
}

} // verus!
