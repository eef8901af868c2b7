//! The growth handle: the square at the break that is dragged to the right
//! to make the heap larger.

use crate::block::{MEM_GAP, SBRK_MENU_PX};
use crate::geometry::{Point, Rect};
use vstd::prelude::*;

verus! {

/// The state of the growth handle.
#[derive(Clone, Copy, Debug)]
pub struct SbrkDescriptor {
    /// The break that the heap would get if the handle were let go now.
    pub pending_break_offset: i32,
    /// Whether the handle is being dragged.
    pub selected: bool,
    /// Where the pointer was when it last moved during this drag.
    pub old_mouse_pos: Option<Point>,
}

impl SbrkDescriptor {
    /// The handle at rest at the break `end_of_heap`.
    pub open spec fn resting(end_of_heap: i32) -> SbrkDescriptor {
        SbrkDescriptor { pending_break_offset: end_of_heap, selected: false, old_mouse_pos: None }
    }

    /// The square in which the handle answers clicks: it begins at the
    /// pending break and is as high as the strip.
    pub open spec fn region(self) -> Rect {
        Rect { x: self.pending_break_offset, y: 0, width: SBRK_MENU_PX, height: SBRK_MENU_PX }
    }

    /// The handle after it was taken hold of.
    pub open spec fn grabbed(self) -> SbrkDescriptor {
        SbrkDescriptor { selected: true, old_mouse_pos: None, ..self }
    }

    /// The handle after the pointer moved to `pos`. A handle that is not
    /// dragged stays. The first move of a drag only notes the position; each
    /// later one shifts the pending break by as much as the pointer went to
    /// the right or left. The pending break stops at the break of the heap,
    /// since a heap cannot shrink, and at the largest address.
    pub open spec fn dragged(self, pos: Point, end_of_heap: i32) -> SbrkDescriptor {
        if !self.selected {
            self
        } else {
            match self.old_mouse_pos {
                None => SbrkDescriptor { old_mouse_pos: Some(pos), ..self },
                Some(from) => {
                    let target = self.pending_break_offset + (pos.x - from.x);
                    SbrkDescriptor {
                        pending_break_offset: if target < end_of_heap {
                            end_of_heap
                        } else if target > i32::MAX {
                            i32::MAX
                        } else {
                            target as i32
                        },
                        old_mouse_pos: Some(pos),
                        ..self
                    }
                },
            }
        }
    }

    /// Whether letting go of the handle makes the heap grow: the handle is
    /// dragged, and the pending break lies above the break of the heap by
    /// more than the gap.
    pub open spec fn commits(self, end_of_heap: i32) -> bool {
        self.selected && self.pending_break_offset - end_of_heap > MEM_GAP
    }

    /// The handle after it was let go: at rest at the new break where the
    /// heap grows, and back at the old break where it does not. A handle
    /// that was not dragged stays.
    pub open spec fn released(self, end_of_heap: i32) -> SbrkDescriptor {
        if !self.selected {
            self
        } else if self.commits(end_of_heap) {
            Self::resting(self.pending_break_offset)
        } else {
            Self::resting(end_of_heap)
        }
    }

    /// The handle of a heap whose break is at `end_of_heap`.
    pub fn new(end_of_heap: i32) -> (handle: SbrkDescriptor)
        ensures
            handle == SbrkDescriptor::resting(end_of_heap),
    {
        SbrkDescriptor { pending_break_offset: end_of_heap, selected: false, old_mouse_pos: None }
    }

    /// Computes the square in which the handle answers clicks.
    pub fn rect(&self) -> (r: Rect)
        ensures
            r == self.region(),
    {
        Rect { x: self.pending_break_offset, y: 0, width: SBRK_MENU_PX, height: SBRK_MENU_PX }
    }

    /// Takes hold of the handle.
    pub fn grab(&mut self)
        ensures
            *final(self) == old(self).grabbed(),
    {
        self.selected = true;
        self.old_mouse_pos = None;
    }

    /// Follows the pointer to `pos`, over a heap whose break is at
    /// `end_of_heap`.
    pub fn drag_to(&mut self, pos: Point, end_of_heap: i32)
        ensures
            *final(self) == old(self).dragged(pos, end_of_heap),
    {
        if !self.selected {
            return ;
        }
        if let Some(from) = self.old_mouse_pos {
            let target: i64 = self.pending_break_offset as i64 + (pos.x as i64 - from.x as i64);
            if target < end_of_heap as i64 {
                self.pending_break_offset = end_of_heap;
            } else if target > i32::MAX as i64 {
                self.pending_break_offset = i32::MAX;
            } else {
                self.pending_break_offset = target as i32;
            }
        }
        self.old_mouse_pos = Some(pos);
    }

    /// Lets go of the handle, over a heap whose break is at `end_of_heap`,
    /// and returns the break that the heap is to grow to, if it is to grow.
    pub fn release(&mut self, end_of_heap: i32) -> (new_break: Option<i32>)
        ensures
            *final(self) == old(self).released(end_of_heap),
            new_break == if old(self).commits(end_of_heap) {
                Some(old(self).pending_break_offset)
            } else {
                None
            },
    {
        if !self.selected {
            return None;
        }
        let grows = self.pending_break_offset as i64 - end_of_heap as i64 > MEM_GAP as i64;
        let new_break = if grows {
            Some(self.pending_break_offset)
        } else {
            self.pending_break_offset = end_of_heap;
            None
        };
        self.selected = false;
        self.old_mouse_pos = None;
        new_break
    }
}

} // verus!
