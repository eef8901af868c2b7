use heap_visualizer::{
    AllocationMenu, Block, Button, Controller, HeapError, HitTarget, InputEvent, MenuMode,
    MouseButton, NumericInput, Point, Rect, SbrkDescriptor,
};

fn at(x: i32, y: i32) -> Point {
    Point { x, y }
}

fn down(c: &mut Controller, x: i32, y: i32) -> Result<(), HeapError> {
    c.event(InputEvent::PointerDown { pos: at(x, y), button: MouseButton::Left })
}

fn up(c: &mut Controller, x: i32, y: i32) -> Result<(), HeapError> {
    c.event(InputEvent::PointerUp { pos: at(x, y), button: MouseButton::Left })
}

fn moved(c: &mut Controller, x: i32, y: i32) {
    assert_eq!(c.event(InputEvent::PointerMoved { pos: at(x, y) }), Ok(()));
}

fn type_text(c: &mut Controller, text: &str) {
    for ch in text.chars() {
        assert_eq!(c.event(InputEvent::Character(ch)), Ok(()));
    }
}

/// Drags the handle, which rests at the break, to the right by `by`.
fn grow_by(c: &mut Controller, by: i32) {
    let x = c.heap().end_of_heap() + 10;
    down(c, x, 10).unwrap();
    moved(c, x, 10);
    moved(c, x + by, 10);
    up(c, x + by, 10).unwrap();
}

fn blocks_of(c: &Controller) -> Vec<Block> {
    let mut all = Vec::new();
    for i in 0..c.heap().len() {
        all.push(c.heap().block(i));
    }
    all
}

fn free_block(offset: i32, size: i32) -> Block {
    Block { offset, size, allocated: false, used: 0 }
}

const ALLOCATE: (i32, i32) = (10, 210);
const COALESCE_LEFT: (i32, i32) = (10, 410);
const COALESCE_RIGHT: (i32, i32) = (260, 410);
const SPLIT: (i32, i32) = (510, 410);
const NOWHERE: (i32, i32) = (5000, 5000);

#[test]
fn rect_contains_its_left_and_top_edge_only() {
    let r = Rect { x: 10, y: 20, width: 30, height: 40 };
    assert!(r.contains(at(10, 20)));
    assert!(r.contains(at(39, 59)));
    assert!(!r.contains(at(40, 20)));
    assert!(!r.contains(at(10, 60)));
    assert!(!r.contains(at(9, 20)));
    assert!(!r.contains(at(10, 19)));
    let empty = Rect { x: 0, y: 0, width: 0, height: 10 };
    assert!(!empty.contains(at(0, 0)));
    let inverted = Rect { x: 0, y: 0, width: -1, height: 10 };
    assert!(!inverted.contains(at(0, 0)));
    assert!(!inverted.contains(at(-1, 0)));
    let far = Rect { x: i32::MAX - 1, y: 0, width: 100, height: 10 };
    assert!(far.contains(at(i32::MAX, 5)));
}

#[test]
fn rect_with_center_is_placed_around_it() {
    assert_eq!(Rect::with_center(105, 250, 200, 100), Rect { x: 5, y: 200, width: 200, height: 100 });
    assert_eq!(Rect::with_center(0, 0, 3, 5), Rect { x: -1, y: -2, width: 3, height: 5 });
}

#[test]
fn block_rect_leaves_the_gap() {
    let b = Block { offset: 60, size: 40, allocated: false, used: 0 };
    assert_eq!(b.rect(), Rect { x: 60, y: 0, width: 39, height: 100 });
    assert!(b.rect().contains(at(98, 0)));
    assert!(!b.rect().contains(at(99, 0)));
}

#[test]
fn menu_layout_has_two_rows() {
    let menu = AllocationMenu::new(200);
    assert_eq!(menu.y_offset, 200);
    assert_eq!(menu.free_button, Rect { x: 5, y: 200, width: 200, height: 100 });
    assert_eq!(menu.allocate_button, Rect { x: 5, y: 200, width: 200, height: 100 });
    assert_eq!(menu.coalesce_left_button, Rect { x: 5, y: 400, width: 200, height: 100 });
    assert_eq!(menu.coalesce_right_button, Rect { x: 255, y: 400, width: 200, height: 100 });
    assert_eq!(menu.split_button, Rect { x: 505, y: 400, width: 200, height: 100 });
}

#[test]
fn menu_shows_buttons_by_the_state_of_the_block() {
    let menu = AllocationMenu::new(200);
    assert_eq!(menu.button_at(at(10, 210), true), Some(Button::Free));
    assert_eq!(menu.button_at(at(10, 210), false), Some(Button::Allocate));
    assert_eq!(menu.button_at(at(10, 410), false), Some(Button::CoalesceLeft));
    assert_eq!(menu.button_at(at(10, 410), true), None);
    assert_eq!(menu.button_at(at(260, 410), false), Some(Button::CoalesceRight));
    assert_eq!(menu.button_at(at(260, 410), true), None);
    assert_eq!(menu.button_at(at(510, 410), false), Some(Button::Split));
    assert_eq!(menu.button_at(at(510, 410), true), Some(Button::Split));
    assert_eq!(menu.button_at(at(230, 410), false), None);
    assert_eq!(menu.button_at(at(10, 310), false), None);
}

#[test]
fn menu_takes_the_first_button_under_the_click() {
    let r = Rect { x: 0, y: 0, width: 10, height: 10 };
    let menu = AllocationMenu {
        y_offset: 0,
        free_button: r,
        allocate_button: r,
        coalesce_left_button: r,
        coalesce_right_button: r,
        split_button: r,
    };
    assert_eq!(menu.button_at(at(1, 1), true), Some(Button::Free));
    assert_eq!(menu.button_at(at(1, 1), false), Some(Button::Allocate));
}

#[test]
fn numeric_input_appends_digits() {
    let mut input = NumericInput::new();
    assert_eq!(input, NumericInput { value: 0, malformed: false });
    input.push('4');
    input.push('0');
    input.push('7');
    assert_eq!(input.value, 407);
    assert_eq!(input.read(), Some(407));
    input.backspace();
    assert_eq!(input.value, 40);
    input.backspace();
    input.backspace();
    assert_eq!(input.value, 0);
    input.backspace();
    assert_eq!(input.read(), Some(0));
}

#[test]
fn numeric_input_stops_at_the_largest_request() {
    let mut input = NumericInput::new();
    for ch in "2147483647".chars() {
        input.push(ch);
    }
    assert_eq!(input.read(), Some(i32::MAX));
    input.push('0');
    assert_eq!(input.read(), Some(i32::MAX));
    let mut other = NumericInput::new();
    for ch in "2147483648".chars() {
        other.push(ch);
    }
    assert_eq!(other.read(), Some(i32::MAX));
    let wide = NumericInput { value: u32::MAX, malformed: false };
    assert_eq!(wide.read(), Some(i32::MAX));
}

#[test]
fn numeric_input_is_spoilt_by_other_characters() {
    for ch in ['-', 'a', ' ', '/', ':', '٣'] {
        let mut input = NumericInput::new();
        input.push('1');
        input.push(ch);
        assert!(input.malformed);
        assert_eq!(input.value, 1);
        assert_eq!(input.read(), None);
        input.push('2');
        input.backspace();
        assert_eq!(input.read(), None);
    }
}

#[test]
fn handle_follows_the_pointer() {
    let mut handle = SbrkDescriptor::new(100);
    assert_eq!(handle.rect(), Rect { x: 100, y: 0, width: 100, height: 100 });
    handle.drag_to(at(500, 0), 100);
    assert_eq!(handle.pending_break_offset, 100);
    assert_eq!(handle.old_mouse_pos, None);
    handle.grab();
    assert!(handle.selected);
    handle.drag_to(at(150, 30), 100);
    assert_eq!(handle.pending_break_offset, 100);
    assert_eq!(handle.old_mouse_pos, Some(at(150, 30)));
    handle.drag_to(at(175, 90), 100);
    assert_eq!(handle.pending_break_offset, 125);
    handle.drag_to(at(170, 90), 100);
    assert_eq!(handle.pending_break_offset, 120);
    handle.drag_to(at(0, 90), 100);
    assert_eq!(handle.pending_break_offset, 100);
    handle.drag_to(at(i32::MAX, 0), 100);
    assert_eq!(handle.pending_break_offset, i32::MAX);
    handle.drag_to(at(i32::MIN, 0), 100);
    assert_eq!(handle.pending_break_offset, 100);
}

#[test]
fn handle_release_needs_more_than_the_gap() {
    let mut handle = SbrkDescriptor { pending_break_offset: 101, selected: true, old_mouse_pos: Some(at(1, 1)) };
    assert_eq!(handle.release(100), None);
    assert_eq!(handle.pending_break_offset, 100);
    assert!(!handle.selected);
    assert_eq!(handle.old_mouse_pos, None);
    let mut handle = SbrkDescriptor { pending_break_offset: 102, selected: true, old_mouse_pos: Some(at(1, 1)) };
    assert_eq!(handle.release(100), Some(102));
    assert_eq!(handle.pending_break_offset, 102);
    assert!(!handle.selected);
    assert_eq!(handle.old_mouse_pos, None);
    let mut idle = SbrkDescriptor { pending_break_offset: 500, selected: false, old_mouse_pos: None };
    assert_eq!(idle.release(100), None);
    assert_eq!(idle.pending_break_offset, 500);
}

#[test]
fn controller_starts_empty() {
    let c = Controller::new();
    assert_eq!(c.heap().len(), 0);
    assert_eq!(c.heap().end_of_heap(), 0);
    assert_eq!(c.selected_block(), None);
    assert_eq!(c.open_menu(), None);
    assert_eq!(c.menu_mode(), MenuMode::Idle);
    assert_eq!(c.input(), NumericInput { value: 0, malformed: false });
    assert_eq!(c.sbrk().pending_break_offset, 0);
    assert!(!c.sbrk().selected);
    assert_eq!(c.menu().y_offset, 200);
    assert_eq!(c.menu().split_button, Rect { x: 505, y: 400, width: 200, height: 100 });
}

#[test]
fn drag_of_the_handle_grows_the_heap() {
    let mut c = Controller::new();
    assert_eq!(c.hit_test(at(10, 10)), HitTarget::GrowthHandle);
    down(&mut c, 10, 10).unwrap();
    assert!(c.sbrk().selected);
    moved(&mut c, 10, 10);
    assert_eq!(c.sbrk().pending_break_offset, 0);
    moved(&mut c, 110, 40);
    assert_eq!(c.sbrk().pending_break_offset, 100);
    assert_eq!(c.heap().len(), 0);
    up(&mut c, 110, 40).unwrap();
    assert_eq!(blocks_of(&c), vec![free_block(0, 100)]);
    assert_eq!(c.heap().end_of_heap(), 100);
    assert_eq!(c.sbrk().pending_break_offset, 100);
    assert!(!c.sbrk().selected);
    assert_eq!(c.sbrk().old_mouse_pos, None);
}

#[test]
fn short_drag_is_discarded() {
    let mut c = Controller::new();
    grow_by(&mut c, 100);
    grow_by(&mut c, 1);
    assert_eq!(blocks_of(&c), vec![free_block(0, 100)]);
    assert_eq!(c.sbrk().pending_break_offset, 100);
    assert!(!c.sbrk().selected);
    grow_by(&mut c, 2);
    assert_eq!(blocks_of(&c), vec![free_block(0, 100), free_block(100, 2)]);
}

#[test]
fn drag_to_the_left_does_not_shrink_the_heap() {
    let mut c = Controller::new();
    grow_by(&mut c, 100);
    down(&mut c, 110, 10).unwrap();
    moved(&mut c, 110, 10);
    moved(&mut c, 20, 10);
    assert_eq!(c.sbrk().pending_break_offset, 100);
    up(&mut c, 20, 10).unwrap();
    assert_eq!(blocks_of(&c), vec![free_block(0, 100)]);
    assert_eq!(c.heap().end_of_heap(), 100);
}

#[test]
fn moves_without_a_drag_are_ignored() {
    let mut c = Controller::new();
    moved(&mut c, 10, 10);
    moved(&mut c, 300, 10);
    assert_eq!(c.sbrk().pending_break_offset, 0);
    assert_eq!(c.sbrk().old_mouse_pos, None);
    up(&mut c, 300, 10).unwrap();
    assert_eq!(c.heap().len(), 0);
}

#[test]
fn other_buttons_do_nothing() {
    let mut c = Controller::new();
    for button in [MouseButton::Right, MouseButton::Middle] {
        assert_eq!(c.event(InputEvent::PointerDown { pos: at(10, 10), button }), Ok(()));
        assert!(!c.sbrk().selected);
    }
    down(&mut c, 10, 10).unwrap();
    moved(&mut c, 10, 10);
    moved(&mut c, 60, 10);
    assert_eq!(c.event(InputEvent::PointerUp { pos: at(60, 10), button: MouseButton::Right }), Ok(()));
    assert!(c.sbrk().selected);
    assert_eq!(c.heap().len(), 0);
}

#[test]
fn click_selects_and_deselects_a_block() {
    let mut c = Controller::new();
    grow_by(&mut c, 60);
    grow_by(&mut c, 40);
    assert_eq!(c.hit_test(at(10, 10)), HitTarget::Block(0));
    assert_eq!(c.hit_test(at(70, 99)), HitTarget::Block(1));
    assert_eq!(c.hit_test(at(59, 10)), HitTarget::Nothing);
    assert_eq!(c.hit_test(at(70, 100)), HitTarget::Nothing);
    assert_eq!(c.hit_test(at(100, 10)), HitTarget::GrowthHandle);
    down(&mut c, 10, 10).unwrap();
    assert_eq!(c.selected_block(), Some(0));
    assert_eq!(c.open_menu(), Some(0));
    down(&mut c, 70, 10).unwrap();
    assert_eq!(c.selected_block(), Some(1));
    down(&mut c, 70, 10).unwrap();
    assert_eq!(c.selected_block(), None);
    down(&mut c, 70, 10).unwrap();
    assert_eq!(c.selected_block(), Some(1));
    down(&mut c, NOWHERE.0, NOWHERE.1).unwrap();
    assert_eq!(c.selected_block(), None);
}

#[test]
fn buttons_answer_only_while_a_menu_is_open() {
    let mut c = Controller::new();
    grow_by(&mut c, 100);
    assert_eq!(c.hit_test(at(ALLOCATE.0, ALLOCATE.1)), HitTarget::Nothing);
    down(&mut c, ALLOCATE.0, ALLOCATE.1).unwrap();
    assert_eq!(c.menu_mode(), MenuMode::Idle);
    down(&mut c, 10, 10).unwrap();
    assert_eq!(c.hit_test(at(ALLOCATE.0, ALLOCATE.1)), HitTarget::Menu(Button::Allocate));
    assert_eq!(c.hit_test(at(SPLIT.0, SPLIT.1)), HitTarget::Menu(Button::Split));
    assert_eq!(c.hit_test(at(COALESCE_LEFT.0, COALESCE_LEFT.1)), HitTarget::Menu(Button::CoalesceLeft));
    assert_eq!(c.hit_test(at(COALESCE_RIGHT.0, COALESCE_RIGHT.1)), HitTarget::Menu(Button::CoalesceRight));
}

#[test]
fn typed_number_allocates_the_selected_block() {
    let mut c = Controller::new();
    grow_by(&mut c, 100);
    down(&mut c, 10, 10).unwrap();
    down(&mut c, ALLOCATE.0, ALLOCATE.1).unwrap();
    assert_eq!(c.menu_mode(), MenuMode::Allocating);
    assert_eq!(c.selected_block(), Some(0));
    type_text(&mut c, "35");
    assert_eq!(c.input().value, 35);
    assert_eq!(c.event(InputEvent::Backspace), Ok(()));
    assert_eq!(c.input().value, 3);
    type_text(&mut c, "0");
    assert_eq!(c.event(InputEvent::Confirm), Ok(()));
    assert_eq!(blocks_of(&c), vec![Block { offset: 0, size: 100, allocated: true, used: 30 }]);
    assert_eq!(c.menu_mode(), MenuMode::Idle);
    assert_eq!(c.input(), NumericInput { value: 0, malformed: false });
    assert_eq!(c.selected_block(), Some(0));
    assert_eq!(c.hit_test(at(ALLOCATE.0, ALLOCATE.1)), HitTarget::Menu(Button::Free));
    assert_eq!(c.hit_test(at(COALESCE_LEFT.0, COALESCE_LEFT.1)), HitTarget::Nothing);
}

#[test]
fn free_button_frees_at_once() {
    let mut c = Controller::new();
    grow_by(&mut c, 100);
    down(&mut c, 10, 10).unwrap();
    down(&mut c, ALLOCATE.0, ALLOCATE.1).unwrap();
    type_text(&mut c, "30");
    c.event(InputEvent::Confirm).unwrap();
    assert_eq!(down(&mut c, ALLOCATE.0, ALLOCATE.1), Ok(()));
    assert_eq!(blocks_of(&c), vec![free_block(0, 100)]);
    assert_eq!(c.menu_mode(), MenuMode::Idle);
    assert_eq!(c.selected_block(), Some(0));
}

#[test]
fn typed_number_splits_the_selected_block() {
    let mut c = Controller::new();
    grow_by(&mut c, 100);
    down(&mut c, 10, 10).unwrap();
    down(&mut c, SPLIT.0, SPLIT.1).unwrap();
    assert_eq!(c.menu_mode(), MenuMode::Splitting);
    type_text(&mut c, "40");
    assert_eq!(c.event(InputEvent::Confirm), Ok(()));
    assert_eq!(blocks_of(&c), vec![free_block(0, 60), free_block(60, 40)]);
    assert_eq!(c.menu_mode(), MenuMode::Idle);
    assert_eq!(c.selected_block(), Some(0));
}

#[test]
fn rejected_number_is_reported_and_dropped() {
    let mut c = Controller::new();
    grow_by(&mut c, 100);
    down(&mut c, 10, 10).unwrap();
    down(&mut c, ALLOCATE.0, ALLOCATE.1).unwrap();
    type_text(&mut c, "101");
    assert_eq!(c.event(InputEvent::Confirm), Err(HeapError::InsufficientSpace));
    assert_eq!(blocks_of(&c), vec![free_block(0, 100)]);
    assert_eq!(c.menu_mode(), MenuMode::Idle);
    assert_eq!(c.input(), NumericInput { value: 0, malformed: false });
    down(&mut c, SPLIT.0, SPLIT.1).unwrap();
    type_text(&mut c, "1");
    assert_eq!(c.event(InputEvent::Confirm), Err(HeapError::BelowMinimumSize));
    down(&mut c, SPLIT.0, SPLIT.1).unwrap();
    assert_eq!(c.event(InputEvent::Confirm), Err(HeapError::BelowMinimumSize));
    down(&mut c, SPLIT.0, SPLIT.1).unwrap();
    type_text(&mut c, "99999999999");
    assert_eq!(c.input().value, 2147483647);
    assert_eq!(c.event(InputEvent::Confirm), Err(HeapError::ExceedsAvailable));
    assert_eq!(blocks_of(&c), vec![free_block(0, 100)]);
    assert_eq!(c.menu_mode(), MenuMode::Idle);
}

#[test]
fn malformed_number_is_turned_down() {
    let mut c = Controller::new();
    grow_by(&mut c, 100);
    down(&mut c, 10, 10).unwrap();
    down(&mut c, ALLOCATE.0, ALLOCATE.1).unwrap();
    type_text(&mut c, "-5");
    assert_eq!(c.event(InputEvent::Confirm), Err(HeapError::InvalidSize));
    assert_eq!(c.menu_mode(), MenuMode::Idle);
    assert_eq!(c.input(), NumericInput { value: 0, malformed: false });
    down(&mut c, SPLIT.0, SPLIT.1).unwrap();
    type_text(&mut c, "4x0");
    assert_eq!(c.event(InputEvent::Confirm), Err(HeapError::BelowMinimumSize));
    assert_eq!(blocks_of(&c), vec![free_block(0, 100)]);
    assert_eq!(c.menu_mode(), MenuMode::Idle);
}

#[test]
fn cancel_drops_the_number() {
    let mut c = Controller::new();
    grow_by(&mut c, 100);
    down(&mut c, 10, 10).unwrap();
    down(&mut c, ALLOCATE.0, ALLOCATE.1).unwrap();
    type_text(&mut c, "30");
    assert_eq!(c.event(InputEvent::Cancel), Ok(()));
    assert_eq!(c.menu_mode(), MenuMode::Idle);
    assert_eq!(c.input(), NumericInput { value: 0, malformed: false });
    assert_eq!(c.event(InputEvent::Confirm), Ok(()));
    assert_eq!(blocks_of(&c), vec![free_block(0, 100)]);
}

#[test]
fn keys_are_ignored_while_no_number_is_awaited() {
    let mut c = Controller::new();
    grow_by(&mut c, 100);
    down(&mut c, 10, 10).unwrap();
    type_text(&mut c, "30x");
    assert_eq!(c.event(InputEvent::Backspace), Ok(()));
    assert_eq!(c.input(), NumericInput { value: 0, malformed: false });
    assert_eq!(c.event(InputEvent::Confirm), Ok(()));
    assert_eq!(blocks_of(&c), vec![free_block(0, 100)]);
    assert_eq!(c.selected_block(), Some(0));
}

#[test]
fn clicks_are_ignored_while_a_number_is_awaited() {
    let mut c = Controller::new();
    grow_by(&mut c, 60);
    grow_by(&mut c, 40);
    down(&mut c, 10, 10).unwrap();
    down(&mut c, SPLIT.0, SPLIT.1).unwrap();
    type_text(&mut c, "2");
    down(&mut c, 70, 10).unwrap();
    assert_eq!(c.selected_block(), Some(0));
    down(&mut c, NOWHERE.0, NOWHERE.1).unwrap();
    assert_eq!(c.selected_block(), Some(0));
    down(&mut c, 110, 10).unwrap();
    assert!(!c.sbrk().selected);
    down(&mut c, ALLOCATE.0, ALLOCATE.1).unwrap();
    assert_eq!(c.menu_mode(), MenuMode::Splitting);
    assert_eq!(c.input().value, 2);
    assert_eq!(c.event(InputEvent::Confirm), Ok(()));
    assert_eq!(blocks_of(&c), vec![free_block(0, 58), free_block(58, 2), free_block(60, 40)]);
}

#[test]
fn clicks_are_ignored_during_a_drag() {
    let mut c = Controller::new();
    grow_by(&mut c, 100);
    down(&mut c, 110, 10).unwrap();
    assert!(c.sbrk().selected);
    down(&mut c, 10, 10).unwrap();
    assert_eq!(c.selected_block(), None);
    assert!(c.sbrk().selected);
}

#[test]
fn coalesce_right_merges_and_closes_the_menu() {
    let mut c = Controller::new();
    grow_by(&mut c, 60);
    grow_by(&mut c, 40);
    down(&mut c, 10, 10).unwrap();
    assert_eq!(down(&mut c, COALESCE_RIGHT.0, COALESCE_RIGHT.1), Ok(()));
    assert_eq!(blocks_of(&c), vec![free_block(0, 100)]);
    assert_eq!(c.selected_block(), None);
}

#[test]
fn coalesce_left_merges_and_closes_the_menu() {
    let mut c = Controller::new();
    grow_by(&mut c, 60);
    grow_by(&mut c, 40);
    down(&mut c, 70, 10).unwrap();
    assert_eq!(c.selected_block(), Some(1));
    assert_eq!(down(&mut c, COALESCE_LEFT.0, COALESCE_LEFT.1), Ok(()));
    assert_eq!(blocks_of(&c), vec![free_block(0, 100)]);
    assert_eq!(c.selected_block(), None);
    assert_eq!(c.open_menu(), None);
}

#[test]
fn coalesce_without_a_neighbour_is_reported() {
    let mut c = Controller::new();
    grow_by(&mut c, 60);
    grow_by(&mut c, 40);
    down(&mut c, 10, 10).unwrap();
    assert_eq!(down(&mut c, COALESCE_LEFT.0, COALESCE_LEFT.1), Err(HeapError::NotAdjacent));
    assert_eq!(c.selected_block(), Some(0));
    down(&mut c, 70, 10).unwrap();
    assert_eq!(down(&mut c, COALESCE_RIGHT.0, COALESCE_RIGHT.1), Err(HeapError::NotAdjacent));
    assert_eq!(c.selected_block(), Some(1));
    assert_eq!(blocks_of(&c), vec![free_block(0, 60), free_block(60, 40)]);
}

#[test]
fn coalesce_with_a_block_in_use_is_reported() {
    let mut c = Controller::new();
    grow_by(&mut c, 60);
    grow_by(&mut c, 40);
    down(&mut c, 70, 10).unwrap();
    down(&mut c, ALLOCATE.0, ALLOCATE.1).unwrap();
    type_text(&mut c, "7");
    c.event(InputEvent::Confirm).unwrap();
    down(&mut c, 10, 10).unwrap();
    assert_eq!(c.selected_block(), Some(0));
    let before = blocks_of(&c);
    assert_eq!(down(&mut c, COALESCE_RIGHT.0, COALESCE_RIGHT.1), Err(HeapError::BlockAllocated));
    assert_eq!(blocks_of(&c), before);
    assert_eq!(c.selected_block(), Some(0));
}

#[test]
fn selection_survives_growth_and_split() {
    let mut c = Controller::new();
    grow_by(&mut c, 60);
    down(&mut c, 10, 10).unwrap();
    grow_by(&mut c, 40);
    assert_eq!(c.selected_block(), Some(0));
    assert_eq!(c.open_menu(), Some(0));
    assert_eq!(c.heap().len(), 2);
}
