//! The menu of the selected block: five labelled buttons.

use crate::block::SBRK_MENU_PX;
use crate::geometry::{Point, Rect};
use vstd::prelude::*;

verus! {

/// The labels of the menu's buttons.
#[derive(Clone, Copy, Debug, PartialEq, Eq, Structural)]
pub enum Button {
    /// Free the block; shown for a block in use.
    Free,
    /// Allocate the block; shown for a free block.
    Allocate,
    /// Merge the block into its left neighbour; shown for a free block.
    CoalesceLeft,
    /// Merge the right neighbour into the block; shown for a free block.
    CoalesceRight,
    /// Split the block; always shown.
    Split,
}

/// Where the buttons of the menu are. The buttons to free and to allocate
/// share one place: only one of them is shown at a time.
#[derive(Clone, Copy, Debug)]
pub struct AllocationMenu {
    /// The height at which the first row of buttons begins.
    pub y_offset: i32,
    pub free_button: Rect,
    pub allocate_button: Rect,
    pub coalesce_left_button: Rect,
    pub coalesce_right_button: Rect,
    pub split_button: Rect,
}

impl AllocationMenu {
    /// The button in the column that starts at `x`, in the first row
    /// (`row` 0) or in the second.
    pub open spec fn slot(y_offset: int, x: int, row: int) -> Rect {
        Rect {
            x: x as i32,
            y: (y_offset + row * 2 * SBRK_MENU_PX) as i32,
            width: (2 * SBRK_MENU_PX) as i32,
            height: SBRK_MENU_PX,
        }
    }

    /// The menu whose first row begins at the height `y_offset`. Each button
    /// is twice as wide as the strip is high. The first row holds the button
    /// to free or allocate; the second row, two strip heights further down,
    /// holds the two buttons to coalesce and the button to split, two and a
    /// half strip heights apart.
    pub open spec fn layout(y_offset: int) -> AllocationMenu {
        AllocationMenu {
            y_offset: y_offset as i32,
            free_button: Self::slot(y_offset, 5, 0),
            allocate_button: Self::slot(y_offset, 5, 0),
            coalesce_left_button: Self::slot(y_offset, 5, 1),
            coalesce_right_button: Self::slot(y_offset, 5 + 5 * SBRK_MENU_PX / 2, 1),
            split_button: Self::slot(y_offset, 5 + 5 * SBRK_MENU_PX, 1),
        }
    }

    /// The place of the button with the given label.
    pub open spec fn region_of(self, button: Button) -> Rect {
        match button {
            Button::Free => self.free_button,
            Button::Allocate => self.allocate_button,
            Button::CoalesceLeft => self.coalesce_left_button,
            Button::CoalesceRight => self.coalesce_right_button,
            Button::Split => self.split_button,
        }
    }

    /// Whether the menu of a block shows the button: a block in use can be
    /// freed and split, a free block can be allocated, coalesced and split.
    pub open spec fn shows(button: Button, allocated: bool) -> bool {
        match button {
            Button::Free => allocated,
            Button::Split => true,
            _ => !allocated,
        }
    }

    /// Whether a click at `pos` presses the button: the button is shown and
    /// the click lands on it.
    pub open spec fn pressed(self, button: Button, pos: Point, allocated: bool) -> bool {
        Self::shows(button, allocated) && self.region_of(button).covers(pos)
    }

    /// The button that a click at `pos` presses in the menu of a block that
    /// is in use (`allocated`) or free. Where several buttons lie under the
    /// click, the first one in the order free, allocate, coalesce left,
    /// coalesce right, split is pressed.
    pub open spec fn hit(self, pos: Point, allocated: bool) -> Option<Button> {
        if self.pressed(Button::Free, pos, allocated) {
            Some(Button::Free)
        } else if self.pressed(Button::Allocate, pos, allocated) {
            Some(Button::Allocate)
        } else if self.pressed(Button::CoalesceLeft, pos, allocated) {
            Some(Button::CoalesceLeft)
        } else if self.pressed(Button::CoalesceRight, pos, allocated) {
            Some(Button::CoalesceRight)
        } else if self.pressed(Button::Split, pos, allocated) {
            Some(Button::Split)
        } else {
            None
        }
    }

    /// Lays the menu out below the height `y_offset`.
    pub fn new(y_offset: i32) -> (menu: AllocationMenu)
        requires
            y_offset + 3 * SBRK_MENU_PX <= i32::MAX,
        ensures
            menu == AllocationMenu::layout(y_offset as int),
    {
        let width: i32 = 2 * SBRK_MENU_PX;
        let center_x: i32 = SBRK_MENU_PX + 5;
        let center_y: i32 = y_offset + SBRK_MENU_PX / 2;
        let second_row: i32 = center_y + 2 * SBRK_MENU_PX;
        AllocationMenu {
            y_offset,
            free_button: Rect::with_center(center_x, center_y, width, SBRK_MENU_PX),
            allocate_button: Rect::with_center(center_x, center_y, width, SBRK_MENU_PX),
            coalesce_left_button: Rect::with_center(center_x, second_row, width, SBRK_MENU_PX),
            coalesce_right_button: Rect::with_center(
                center_x + 5 * SBRK_MENU_PX / 2,
                second_row,
                width,
                SBRK_MENU_PX,
            ),
            split_button: Rect::with_center(
                center_x + 5 * SBRK_MENU_PX,
                second_row,
                width,
                SBRK_MENU_PX,
            ),
        }
    }

    /// Finds the button that a click at `pos` presses.
    pub fn button_at(&self, pos: Point, allocated: bool) -> (button: Option<Button>)
        ensures
            button == self.hit(pos, allocated),
    {
        if allocated && self.free_button.contains(pos) {
            Some(Button::Free)
        } else if !allocated && self.allocate_button.contains(pos) {
            Some(Button::Allocate)
        } else if !allocated && self.coalesce_left_button.contains(pos) {
            Some(Button::CoalesceLeft)
        } else if !allocated && self.coalesce_right_button.contains(pos) {
            Some(Button::CoalesceRight)
        } else if self.split_button.contains(pos) {
            Some(Button::Split)
        } else {
            None
        }
    }
}

} // verus!
