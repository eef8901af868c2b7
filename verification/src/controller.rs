//! The interaction controller: it finds what a click has hit, follows the
//! drag of the growth handle, collects the number that a menu asks for, and
//! calls the operations of the heap.

use crate::block::{Block, SBRK_MENU_PX};
use crate::error::HeapError;
use crate::geometry::Point;
use crate::heap::Heap;
use crate::input::NumericInput;
use crate::laws::lemma_step_keeps_consistent;
use crate::menu::{AllocationMenu, Button};
use crate::model::HeapModel;
use crate::sbrk::SbrkDescriptor;
use vstd::prelude::*;

verus! {

/// Which number, if any, the menu is waiting for.
#[derive(Clone, Copy, Debug, PartialEq, Eq, Structural)]
pub enum MenuMode {
    /// No number is awaited.
    Idle,
    /// The number of bytes to allocate is being typed.
    Allocating,
    /// The size of the block to split off is being typed.
    Splitting,
}

/// The button of the pointer that went down or up.
#[derive(Clone, Copy, Debug, PartialEq, Eq, Structural)]
pub enum MouseButton {
    Left,
    Middle,
    Right,
}

/// What the input source reports, in the order in which it happens.
#[derive(Clone, Copy, Debug)]
pub enum InputEvent {
    PointerDown { pos: Point, button: MouseButton },
    PointerUp { pos: Point, button: MouseButton },
    PointerMoved { pos: Point },
    /// A character was typed.
    Character(char),
    /// The last character is to be taken back.
    Backspace,
    /// The number is complete.
    Confirm,
    /// The number is to be dropped.
    Cancel,
}

/// What lies under a click.
#[derive(Clone, Copy, Debug, PartialEq, Eq, Structural)]
pub enum HitTarget {
    /// The growth handle.
    GrowthHandle,
    /// A button of the open menu.
    Menu(Button),
    /// The block with this index.
    Block(usize),
    /// None of these.
    Nothing,
}

/// What lies under a click, as the specifications see it.
pub enum HitModel {
    GrowthHandle,
    Menu(Button),
    Block(int),
    Nothing,
}

impl View for HitTarget {
    type V = HitModel;

    open spec fn view(&self) -> HitModel {
        match *self {
            HitTarget::GrowthHandle => HitModel::GrowthHandle,
            HitTarget::Menu(button) => HitModel::Menu(button),
            HitTarget::Block(j) => HitModel::Block(j as int),
            HitTarget::Nothing => HitModel::Nothing,
        }
    }
}

/// The state of the controller as the specifications see it.
pub struct ControllerModel {
    pub heap: HeapModel,
    pub sbrk: SbrkDescriptor,
    pub menu: AllocationMenu,
    /// The index of the block whose menu is open.
    pub selected_block: Option<int>,
    pub menu_mode: MenuMode,
    /// The number typed so far, while the menu waits for one.
    pub input: NumericInput,
}

impl ControllerModel {
    /// The state in which a controller starts: an empty heap, the handle at
    /// rest at zero, the menu two strip heights down, nothing selected and
    /// no number awaited.
    pub open spec fn initial() -> ControllerModel {
        ControllerModel {
            heap: HeapModel::empty(),
            sbrk: SbrkDescriptor::resting(0),
            menu: AllocationMenu::layout(2 * SBRK_MENU_PX),
            selected_block: None,
            menu_mode: MenuMode::Idle,
            input: NumericInput::empty(),
        }
    }

    /// The block whose menu is open: the selected one, as long as its index
    /// names a block.
    pub open spec fn open_menu(self) -> Option<int> {
        match self.selected_block {
            Some(i) if self.heap.has(i) => Some(i),
            _ => None,
        }
    }

    /// Whether block `j` is the first one under a click at `pos`.
    pub open spec fn first_under(self, pos: Point, j: int) -> bool {
        &&& self.heap.has(j)
        &&& self.heap.blocks[j].covers(pos)
        &&& forall|k: int| 0 <= k < j ==> !(#[trigger] self.heap.blocks[k]).covers(pos)
    }

    /// The first block under a click at `pos`, if there is one.
    pub open spec fn block_at(self, pos: Point) -> Option<int> {
        if exists|j: int| self.first_under(pos, j) {
            Some(choose|j: int| self.first_under(pos, j))
        } else {
            None
        }
    }

    /// The button of the open menu under a click at `pos`, if a menu is
    /// open and shows a button there.
    pub open spec fn button_at(self, pos: Point) -> Option<Button> {
        match self.open_menu() {
            Some(i) => self.menu.hit(pos, self.heap.blocks[i].allocated),
            None => None,
        }
    }

    /// What lies under a click at `pos`. The growth handle comes first, then
    /// the buttons that the open menu shows, then the blocks.
    pub open spec fn hit_test(self, pos: Point) -> HitModel {
        if self.sbrk.region().covers(pos) {
            HitModel::GrowthHandle
        } else {
            match self.button_at(pos) {
                Some(button) => HitModel::Menu(button),
                None => match self.block_at(pos) {
                    Some(j) => HitModel::Block(j),
                    None => HitModel::Nothing,
                },
            }
        }
    }

    /// The state and the report after the heap was asked to coalesce: where
    /// it did, the selection is dropped, since the indices have moved;
    /// where it did not, nothing changes.
    pub open spec fn merged(self, left_index: int, right_index: int) -> (
        ControllerModel,
        Result<(), HeapError>,
    ) {
        match self.heap.coalesce(left_index, right_index) {
            Ok(heap) => (ControllerModel { heap, selected_block: None, ..self }, Ok(())),
            Err(e) => (self, Err(e)),
        }
    }

    /// The state and the report after a button of the open menu was
    /// pressed. To free is done at once. To allocate and to split make the
    /// menu wait for a number, starting from an empty input. To coalesce
    /// merges the selected block with its left or right neighbour. Without
    /// an open menu nothing happens.
    pub open spec fn pressed(self, button: Button) -> (ControllerModel, Result<(), HeapError>) {
        match self.open_menu() {
            None => (self, Ok(())),
            Some(i) => match button {
                Button::Free => match self.heap.free(i) {
                    Ok(heap) => (ControllerModel { heap, ..self }, Ok(())),
                    Err(e) => (self, Err(e)),
                },
                Button::Allocate => (
                    ControllerModel {
                        menu_mode: MenuMode::Allocating,
                        input: NumericInput::empty(),
                        ..self
                    },
                    Ok(()),
                ),
                Button::Split => (
                    ControllerModel {
                        menu_mode: MenuMode::Splitting,
                        input: NumericInput::empty(),
                        ..self
                    },
                    Ok(()),
                ),
                Button::CoalesceLeft => self.merged(i - 1, i),
                Button::CoalesceRight => self.merged(i, i + 1),
            },
        }
    }

    /// The state and the report after the pointer went down at `pos`. While
    /// the handle is dragged or a number is awaited, nothing happens. Else
    /// the click goes to what lies under it: the handle is taken hold of; a
    /// button is pressed; a block is selected, or deselected if it was
    /// selected already; a click on nothing drops the selection.
    pub open spec fn pointer_down(self, pos: Point) -> (ControllerModel, Result<(), HeapError>) {
        if self.menu_mode != MenuMode::Idle || self.sbrk.selected {
            (self, Ok(()))
        } else {
            match self.hit_test(pos) {
                HitModel::GrowthHandle => (
                    ControllerModel { sbrk: self.sbrk.grabbed(), ..self },
                    Ok(()),
                ),
                HitModel::Menu(button) => self.pressed(button),
                HitModel::Block(j) => (
                    ControllerModel {
                        selected_block: if self.selected_block == Some(j) {
                            None
                        } else {
                            Some(j)
                        },
                        ..self
                    },
                    Ok(()),
                ),
                HitModel::Nothing => (ControllerModel { selected_block: None, ..self }, Ok(())),
            }
        }
    }

    /// The break of the heap as a machine integer.
    pub open spec fn top(self) -> i32 {
        self.heap.end_of_heap as i32
    }

    /// The state after the pointer moved to `pos`: the handle follows it.
    pub open spec fn pointer_moved(self, pos: Point) -> ControllerModel {
        ControllerModel { sbrk: self.sbrk.dragged(pos, self.top()), ..self }
    }

    /// The state after the pointer went up: the drag ends, and the heap
    /// grows to the pending break where the drag went far enough.
    pub open spec fn pointer_up(self) -> ControllerModel {
        ControllerModel {
            heap: if self.sbrk.commits(self.top()) {
                match self.heap.grow(self.sbrk.pending_break_offset as int) {
                    Ok(heap) => heap,
                    Err(_) => self.heap,
                }
            } else {
                self.heap
            },
            sbrk: self.sbrk.released(self.top()),
            ..self
        }
    }

    /// The state after the character `c` was typed: it goes into the number
    /// that the menu waits for, if it waits for one.
    pub open spec fn character(self, c: char) -> ControllerModel {
        if self.menu_mode == MenuMode::Idle {
            self
        } else {
            ControllerModel { input: self.input.appended(c), ..self }
        }
    }

    /// The state after the last character was taken back.
    pub open spec fn backspace(self) -> ControllerModel {
        if self.menu_mode == MenuMode::Idle {
            self
        } else {
            ControllerModel { input: self.input.shortened(), ..self }
        }
    }

    /// The state after the input was dropped: no number is awaited, and the
    /// input is empty.
    pub open spec fn closed(self) -> ControllerModel {
        ControllerModel { menu_mode: MenuMode::Idle, input: NumericInput::empty(), ..self }
    }

    /// What the heap makes of the number `n` that the menu waited for.
    pub open spec fn dispatch(self, index: int, n: int) -> Result<HeapModel, HeapError> {
        if self.menu_mode == MenuMode::Allocating {
            self.heap.allocate(index, n)
        } else {
            self.heap.split(index, n)
        }
    }

    /// The state and the report after the number was confirmed. Where none
    /// is awaited, nothing happens. Else the menu stops waiting and the
    /// input is emptied, whatever comes of it. With a block selected, the
    /// heap is asked to allocate it with the number, or to split the number
    /// off it. A malformed input is turned down without asking the heap:
    /// with `InvalidSize` where bytes to allocate were awaited, with
    /// `BelowMinimumSize` where a size to split off was.
    pub open spec fn confirm(self) -> (ControllerModel, Result<(), HeapError>) {
        if self.menu_mode == MenuMode::Idle {
            (self, Ok(()))
        } else {
            match self.open_menu() {
                None => (self.closed(), Ok(())),
                Some(i) => match self.input.amount() {
                    None => (
                        self.closed(),
                        Err(
                            if self.menu_mode == MenuMode::Allocating {
                                HeapError::InvalidSize
                            } else {
                                HeapError::BelowMinimumSize
                            },
                        ),
                    ),
                    Some(n) => match self.dispatch(i, n as int) {
                        Ok(heap) => (ControllerModel { heap, ..self.closed() }, Ok(())),
                        Err(e) => (self.closed(), Err(e)),
                    },
                },
            }
        }
    }

    /// The state and the report after an event. Only the left button of the
    /// pointer does anything.
    pub open spec fn step(self, event: InputEvent) -> (ControllerModel, Result<(), HeapError>) {
        match event {
            InputEvent::PointerDown { pos, button } => if button == MouseButton::Left {
                self.pointer_down(pos)
            } else {
                (self, Ok(()))
            },
            InputEvent::PointerUp { pos, button } => if button == MouseButton::Left {
                (self.pointer_up(), Ok(()))
            } else {
                (self, Ok(()))
            },
            InputEvent::PointerMoved { pos } => (self.pointer_moved(pos), Ok(())),
            InputEvent::Character(c) => (self.character(c), Ok(())),
            InputEvent::Backspace => (self.backspace(), Ok(())),
            InputEvent::Confirm => self.confirm(),
            InputEvent::Cancel => (self.closed(), Ok(())),
        }
    }

    /// What holds of the controller between any two events: the heap is
    /// well-formed; the selection names a block; a number is awaited only
    /// for a selected block; the pending break does not lie under the break;
    /// and a handle at rest sits at the break.
    pub open spec fn consistent(self) -> bool {
        &&& self.heap.wf()
        &&& i32::MIN <= self.heap.end_of_heap <= i32::MAX
        &&& self.selected_block matches Some(i) ==> self.heap.has(i)
        &&& self.menu_mode != MenuMode::Idle ==> self.selected_block is Some
        &&& self.sbrk.pending_break_offset >= self.heap.end_of_heap
        &&& !self.sbrk.selected ==> self.sbrk == SbrkDescriptor::resting(self.top())
    }
}

/// The controller: a heap, and the state of the user interface around it.
pub struct Controller {
    heap: Heap,
    sbrk: SbrkDescriptor,
    menu: AllocationMenu,
    selected_block: Option<usize>,
    menu_mode: MenuMode,
    input: NumericInput,
}

impl View for Controller {
    type V = ControllerModel;

    closed spec fn view(&self) -> ControllerModel {
        ControllerModel {
            heap: self.heap@,
            sbrk: self.sbrk,
            menu: self.menu,
            selected_block: match self.selected_block {
                Some(i) => Some(i as int),
                None => None,
            },
            menu_mode: self.menu_mode,
            input: self.input,
        }
    }
}

impl Controller {
    /// A controller over an empty heap.
    pub fn new() -> (controller: Controller)
        ensures
            controller@ == ControllerModel::initial(),
            controller@.consistent(),
    {
        Controller {
            heap: Heap::new(),
            sbrk: SbrkDescriptor::new(0),
            menu: AllocationMenu::new(2 * SBRK_MENU_PX),
            selected_block: None,
            menu_mode: MenuMode::Idle,
            input: NumericInput::new(),
        }
    }

    /// The heap.
    pub fn heap(&self) -> (heap: &Heap)
        ensures
            heap@ == self@.heap,
    {
        &self.heap
    }

    /// The growth handle.
    pub fn sbrk(&self) -> (handle: SbrkDescriptor)
        ensures
            handle == self@.sbrk,
    {
        self.sbrk
    }

    /// The menu.
    pub fn menu(&self) -> (menu: AllocationMenu)
        ensures
            menu == self@.menu,
    {
        self.menu
    }

    /// The index of the selected block, whether or not it still names one.
    pub fn selected_block(&self) -> (selected: Option<usize>)
        ensures
            selected matches Some(i) ==> self@.selected_block == Some(i as int),
            selected is None ==> self@.selected_block is None,
    {
        self.selected_block
    }

    /// Which number the menu is waiting for.
    pub fn menu_mode(&self) -> (mode: MenuMode)
        ensures
            mode == self@.menu_mode,
    {
        self.menu_mode
    }

    /// The number typed so far.
    pub fn input(&self) -> (input: NumericInput)
        ensures
            input == self@.input,
    {
        self.input
    }

    /// The block whose menu is open: the selected one, checked against the
    /// number of blocks.
    pub fn open_menu(&self) -> (open: Option<usize>)
        ensures
            open matches Some(i) ==> self@.open_menu() == Some(i as int) && i < usize::MAX,
            open is None ==> self@.open_menu() is None,
    {
        match self.selected_block {
            Some(i) => if i < self.heap.len() {
                Some(i)
            } else {
                None
            },
            None => None,
        }
    }

    /// Finds the first block under a click at `pos`.
    pub fn block_at(&self, pos: Point) -> (found: Option<usize>)
        ensures
            found matches Some(j) ==> self@.block_at(pos) == Some(j as int),
            found is None ==> self@.block_at(pos) is None,
    {
        let n = self.heap.len();
        let mut j: usize = 0;
        while j < n
            invariant
                n == self@.heap.blocks.len(),
                j <= n,
                forall|k: int| 0 <= k < j ==> !(#[trigger] self@.heap.blocks[k]).covers(pos),
            decreases n - j,
        {
            let b = self.heap.block(j);
            if b.rect().contains(pos) {
                proof {
                    assert(self@.first_under(pos, j as int));
                    let chosen = choose|c: int| self@.first_under(pos, c);
                    assert(self@.first_under(pos, chosen));
                    if chosen < j {
                        assert(!self@.heap.blocks[chosen].covers(pos));
                    }
                    if j < chosen {
                        assert(!self@.heap.blocks[j as int].covers(pos));
                    }
                }
                return Some(j);
            }
            j = j + 1;
        }
        proof {
            assert forall|c: int| !self@.first_under(pos, c) by {
                if self@.heap.has(c) {
                    assert(!self@.heap.blocks[c].covers(pos));
                }
            }
        }
        None
    }

    /// Finds what lies under a click at `pos`: the growth handle, else a
    /// button that the open menu shows, else a block.
    pub fn hit_test(&self, pos: Point) -> (target: HitTarget)
        ensures
            target@ == self@.hit_test(pos),
    {
        if self.sbrk.rect().contains(pos) {
            return HitTarget::GrowthHandle;
        }
        if let Some(i) = self.open_menu() {
            let allocated = self.heap.block(i).allocated;
            if let Some(button) = self.menu.button_at(pos, allocated) {
                return HitTarget::Menu(button);
            }
        }
        match self.block_at(pos) {
            Some(j) => HitTarget::Block(j),
            None => HitTarget::Nothing,
        }
    }

    /// Asks the heap to merge two blocks and drops the selection where it
    /// did.
    fn merge(&mut self, left_index: usize, right_index: usize) -> (res: Result<(), HeapError>)
        ensures
            final(self)@ == old(self)@.merged(left_index as int, right_index as int).0,
            res == old(self)@.merged(left_index as int, right_index as int).1,
    {
        let res = self.heap.coalesce(left_index, right_index);
        if res.is_ok() {
            self.selected_block = None;
        }
        res
    }

    /// Presses a button of the open menu.
    fn press(&mut self, button: Button) -> (res: Result<(), HeapError>)
        ensures
            final(self)@ == old(self)@.pressed(button).0,
            res == old(self)@.pressed(button).1,
    {
        let i = match self.open_menu() {
            Some(i) => i,
            None => {
                return Ok(());
            },
        };
        match button {
            Button::Free => self.heap.free(i),
            Button::Allocate => {
                self.menu_mode = MenuMode::Allocating;
                self.input = NumericInput::new();
                Ok(())
            },
            Button::Split => {
                self.menu_mode = MenuMode::Splitting;
                self.input = NumericInput::new();
                Ok(())
            },
            Button::CoalesceLeft => {
                if i == 0 {
                    Err(HeapError::NotAdjacent)
                } else {
                    self.merge(i - 1, i)
                }
            },
            Button::CoalesceRight => {
                self.merge(i, i + 1)
            },
        }
    }

    /// Handles the left button of the pointer going down at `pos`.
    pub fn handle_click(&mut self, pos: Point) -> (res: Result<(), HeapError>)
        ensures
            final(self)@ == old(self)@.pointer_down(pos).0,
            res == old(self)@.pointer_down(pos).1,
    {
        if self.menu_mode != MenuMode::Idle || self.sbrk.selected {
            return Ok(());
        }
        match self.hit_test(pos) {
            HitTarget::GrowthHandle => {
                self.sbrk.grab();
                Ok(())
            },
            HitTarget::Menu(button) => self.press(button),
            HitTarget::Block(j) => {
                if self.selected_block == Some(j) {
                    self.selected_block = None;
                } else {
                    self.selected_block = Some(j);
                }
                Ok(())
            },
            HitTarget::Nothing => {
                self.selected_block = None;
                Ok(())
            },
        }
    }

    /// Handles the pointer moving to `pos`.
    pub fn handle_mouse_moved(&mut self, pos: Point)
        ensures
            final(self)@ == old(self)@.pointer_moved(pos),
    {
        let top = self.heap.end_of_heap();
        self.sbrk.drag_to(pos, top);
    }

    /// Handles the left button of the pointer going up.
    pub fn handle_release(&mut self)
        ensures
            final(self)@ == old(self)@.pointer_up(),
    {
        let top = self.heap.end_of_heap();
        if let Some(new_break) = self.sbrk.release(top) {
            let grown = self.heap.grow(new_break);
            assert(grown is Ok);
        }
    }

    /// Handles a typed character.
    pub fn handle_character(&mut self, c: char)
        ensures
            final(self)@ == old(self)@.character(c),
    {
        if self.menu_mode != MenuMode::Idle {
            self.input.push(c);
        }
    }

    /// Handles the request to take the last character back.
    pub fn handle_backspace(&mut self)
        ensures
            final(self)@ == old(self)@.backspace(),
    {
        if self.menu_mode != MenuMode::Idle {
            self.input.backspace();
        }
    }

    /// Drops the input: no number is awaited any more.
    pub fn handle_cancel(&mut self)
        ensures
            final(self)@ == old(self)@.closed(),
    {
        self.menu_mode = MenuMode::Idle;
        self.input = NumericInput::new();
    }

    /// Handles the confirmation of the typed number.
    pub fn handle_confirm(&mut self) -> (res: Result<(), HeapError>)
        ensures
            final(self)@ == old(self)@.confirm().0,
            res == old(self)@.confirm().1,
    {
        let mode = self.menu_mode;
        if mode == MenuMode::Idle {
            return Ok(());
        }
        let amount = self.input.read();
        self.menu_mode = MenuMode::Idle;
        self.input = NumericInput::new();
        let i = match self.open_menu() {
            Some(i) => i,
            None => {
                return Ok(());
            },
        };
        match amount {
            None => {
                if mode == MenuMode::Allocating {
                    Err(HeapError::InvalidSize)
                } else {
                    Err(HeapError::BelowMinimumSize)
                }
            },
            Some(n) => {
                if mode == MenuMode::Allocating {
                    self.heap.allocate(i, n)
                } else {
                    self.heap.split(i, n)
                }
            },
        }
    }

    /// Handles one event, and reports the error if the heap turned an
    /// operation down. An event that is turned down leaves the heap as it
    /// was.
    pub fn event(&mut self, event: InputEvent) -> (res: Result<(), HeapError>)
        ensures
            final(self)@ == old(self)@.step(event).0,
            res == old(self)@.step(event).1,
            res is Err ==> final(self)@.heap == old(self)@.heap,
            old(self)@.consistent() ==> final(self)@.consistent(),
    {
        proof {
            if self@.consistent() {
                lemma_step_keeps_consistent(self@, event);
            }
        }
        match event {
            InputEvent::PointerDown { pos, button } => {
                if button == MouseButton::Left {
                    self.handle_click(pos)
                } else {
                    Ok(())
                }
            },
            InputEvent::PointerUp { pos, button } => {
                if button == MouseButton::Left {
                    self.handle_release();
                }
                Ok(())
            },
            InputEvent::PointerMoved { pos } => {
                self.handle_mouse_moved(pos);
                Ok(())
            },
            InputEvent::Character(c) => {
                self.handle_character(c);
                Ok(())
            },
            InputEvent::Backspace => {
                self.handle_backspace();
                Ok(())
            },
            InputEvent::Confirm => self.handle_confirm(),
            InputEvent::Cancel => {
                self.handle_cancel();
                Ok(())
            },
        }
    }
}

} // verus!
