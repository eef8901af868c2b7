//! What holds of the heap whatever is done with it.

use crate::block::BlockModel;
use crate::controller::{ControllerModel, InputEvent, MenuMode};
use crate::geometry::Point;
use crate::model::{HeapModel, HeapOp};
use vstd::prelude::*;

verus! {

/// Growing a well-formed heap leaves a well-formed heap.
pub proof fn lemma_grow_keeps_wf(m: HeapModel, new_break: int)
    requires
        m.wf(),
    ensures
        m.grow(new_break) matches Ok(n) ==> n.wf(),
{
    if let Ok(n) = m.grow(new_break) {
        let len = m.blocks.len() as int;
        assert forall|i: int| n.has(i) implies #[trigger] n.block_end(i) == n.next_start(i) by {
            if i < len {
                assert(m.block_end(i) == m.next_start(i));
            }
        }
        if len > 0 {
            assert(m.block_end(len - 1) == m.next_start(len - 1));
            assert(m.blocks[len - 1].valid());
        }
        assert forall|i: int| n.has(i) implies (#[trigger] n.blocks[i]).valid() by {
            if i < len {
                assert(m.blocks[i].valid());
            }
        }
    }
}

/// Allocating a block of a well-formed heap leaves a well-formed heap.
pub proof fn lemma_allocate_keeps_wf(m: HeapModel, index: int, requested: int)
    requires
        m.wf(),
        m.has(index),
    ensures
        m.allocate(index, requested) matches Ok(n) ==> n.wf(),
{
    if let Ok(n) = m.allocate(index, requested) {
        assert forall|i: int| n.has(i) implies #[trigger] n.block_end(i) == n.next_start(i) by {
            assert(m.block_end(i) == m.next_start(i));
        }
        assert forall|i: int| n.has(i) implies (#[trigger] n.blocks[i]).valid() by {
            assert(m.blocks[i].valid());
        }
    }
}

/// Freeing a block of a well-formed heap leaves a well-formed heap.
pub proof fn lemma_free_keeps_wf(m: HeapModel, index: int)
    requires
        m.wf(),
        m.has(index),
    ensures
        m.free(index) matches Ok(n) ==> n.wf(),
{
    if let Ok(n) = m.free(index) {
        assert forall|i: int| n.has(i) implies #[trigger] n.block_end(i) == n.next_start(i) by {
            assert(m.block_end(i) == m.next_start(i));
        }
        assert forall|i: int| n.has(i) implies (#[trigger] n.blocks[i]).valid() by {
            assert(m.blocks[i].valid());
        }
    }
}

/// Splitting a block of a well-formed heap leaves a well-formed heap, with
/// one block more.
pub proof fn lemma_split_keeps_wf(m: HeapModel, index: int, new_right_size: int)
    requires
        m.wf(),
        m.has(index),
    ensures
        m.split(index, new_right_size) matches Ok(n) ==> n.wf() && n.blocks.len() == m.blocks.len()
            + 1,
{
    if let Ok(n) = m.split(index, new_right_size) {
        assert(m.blocks[index].valid());
        assert forall|i: int| n.has(i) implies #[trigger] n.block_end(i) == n.next_start(i) by {
            if i <= index {
                assert(m.block_end(i) == m.next_start(i));
            } else {
                assert(m.block_end(i - 1) == m.next_start(i - 1));
            }
        }
        assert forall|i: int| n.has(i) implies (#[trigger] n.blocks[i]).valid() by {
            if i <= index {
                assert(m.blocks[i].valid());
            } else if i > index + 1 {
                assert(m.blocks[i - 1].valid());
            }
        }
    }
}

/// Merging two blocks of a well-formed heap leaves a well-formed heap, with
/// one block less.
pub proof fn lemma_coalesce_keeps_wf(m: HeapModel, left_index: int, right_index: int)
    requires
        m.wf(),
    ensures
        m.coalesce(left_index, right_index) matches Ok(n) ==> n.wf() && n.blocks.len() + 1
            == m.blocks.len(),
{
    if let Ok(n) = m.coalesce(left_index, right_index) {
        assert(m.blocks[left_index].valid());
        assert(m.blocks[right_index].valid());
        assert(m.block_end(left_index) == m.next_start(left_index));
        assert forall|i: int| n.has(i) implies #[trigger] n.block_end(i) == n.next_start(i) by {
            if i < left_index {
                assert(m.block_end(i) == m.next_start(i));
            } else {
                assert(m.block_end(i + 1) == m.next_start(i + 1));
            }
        }
        assert forall|i: int| n.has(i) implies (#[trigger] n.blocks[i]).valid() by {
            if i <= left_index {
                assert(m.blocks[i].valid());
            } else {
                assert(m.blocks[i + 1].valid());
            }
        }
    }
}

/// No call breaks a well-formed heap, whether it goes through or not.
pub proof fn lemma_apply_keeps_wf(m: HeapModel, op: HeapOp)
    requires
        m.wf(),
    ensures
        m.apply(op).wf(),
{
    if m.admits(op) {
        match op {
            HeapOp::Grow { new_break } => lemma_grow_keeps_wf(m, new_break),
            HeapOp::Allocate { index, requested } => lemma_allocate_keeps_wf(m, index, requested),
            HeapOp::Free { index } => lemma_free_keeps_wf(m, index),
            HeapOp::Split { index, new_right_size } => lemma_split_keeps_wf(
                m,
                index,
                new_right_size,
            ),
            HeapOp::Coalesce { left_index, right_index } => lemma_coalesce_keeps_wf(
                m,
                left_index,
                right_index,
            ),
        }
    }
}

/// Contiguity: in every heap that calls can produce from the empty one, the
/// first block starts at zero, each block ends where the next one starts,
/// and the last block ends at the break.
pub proof fn lemma_reachable_is_contiguous(ops: Seq<HeapOp>)
    ensures
        HeapModel::run(ops).wf(),
        HeapModel::run(ops).contiguous(),
    decreases ops.len(),
{
    if ops.len() > 0 {
        lemma_reachable_is_contiguous(ops.drop_last());
        lemma_apply_keeps_wf(HeapModel::run(ops.drop_last()), ops.last());
    }
}

/// Every block of a well-formed heap lies between zero and the break, and
/// the blocks come in the order of their addresses.
pub proof fn lemma_blocks_within_heap(m: HeapModel, i: int)
    requires
        m.wf(),
        m.has(i),
    ensures
        0 <= m.blocks[i].offset,
        m.blocks[i].end() <= m.end_of_heap,
        forall|j: int| i < j && m.has(j) ==> m.blocks[i].end() <= (#[trigger] m.blocks[j]).offset,
    decreases m.blocks.len() - i,
{
    assert(m.blocks[i].valid());
    assert(m.block_end(i) == m.next_start(i));
    if i + 1 < m.blocks.len() {
        lemma_blocks_within_heap(m, i + 1);
        assert(m.blocks[i + 1].valid());
    }
}

/// The break never retreats: a call that goes through leaves it where it
/// was or above.
pub proof fn lemma_break_never_retreats(m: HeapModel, op: HeapOp)
    ensures
        m.apply(op).end_of_heap >= m.end_of_heap,
{
}

/// Split and coalesce undo each other: where a free block is split and the
/// two parts are merged again, the heap is what it was before, so one block
/// of the old size stands at the old offset.
pub proof fn lemma_split_then_coalesce(m: HeapModel, index: int, new_right_size: int)
    requires
        m.has(index),
        !m.blocks[index].allocated,
        m.split(index, new_right_size) is Ok,
    ensures
        m.split(index, new_right_size)->Ok_0.coalesce(index, index + 1) == Ok::<
            HeapModel,
            crate::error::HeapError,
        >(m),
{
    let n = m.split(index, new_right_size)->Ok_0;
    let back = n.coalesce(index, index + 1);
    assert(back is Ok);
    assert(back->Ok_0.blocks =~= m.blocks);
}

/// Allocate and free undo each other: where a block is allocated and then
/// freed, it is free again with nothing in use, its offset and size are what
/// they were, and no other block has changed.
pub proof fn lemma_allocate_then_free(m: HeapModel, index: int, requested: int)
    requires
        m.has(index),
        m.allocate(index, requested) is Ok,
    ensures
        m.allocate(index, requested)->Ok_0.free(index) is Ok,
        ({
            let back = m.allocate(index, requested)->Ok_0.free(index)->Ok_0;
            &&& back.end_of_heap == m.end_of_heap
            &&& back.blocks == m.blocks.update(
                index,
                BlockModel { allocated: false, used: 0, ..m.blocks[index] },
            )
            &&& m.blocks[index].used == 0 ==> back == m
        }),
{
    let back = m.allocate(index, requested)->Ok_0.free(index)->Ok_0;
    assert(back.blocks =~= m.blocks.update(
        index,
        BlockModel { allocated: false, used: 0, ..m.blocks[index] },
    ));
    if m.blocks[index].used == 0 {
        assert(back.blocks =~= m.blocks);
    }
}

/// The block that a click is said to land on is a block of the heap, the
/// click does land on it, and on none before it.
pub proof fn lemma_block_at_is_first(m: ControllerModel, pos: Point)
    ensures
        m.block_at(pos) matches Some(j) ==> m.first_under(pos, j),
        m.block_at(pos) is None ==> forall|j: int|
            m.heap.has(j) ==> !(#[trigger] m.heap.blocks[j]).covers(pos),
{
    if m.block_at(pos) is None {
        assert forall|j: int| m.heap.has(j) implies !(#[trigger] m.heap.blocks[j]).covers(pos) by {
            lemma_no_first_means_none(m, pos, j);
        }
    }
}

/// Where no block is the first under a click, no block is under it at all.
proof fn lemma_no_first_means_none(m: ControllerModel, pos: Point, j: int)
    requires
        forall|c: int| !m.first_under(pos, c),
        m.heap.has(j),
    ensures
        !m.heap.blocks[j].covers(pos),
    decreases j,
{
    if m.heap.blocks[j].covers(pos) {
        assert(!m.first_under(pos, j));
        let k = choose|k: int| 0 <= k < j && (#[trigger] m.heap.blocks[k]).covers(pos);
        lemma_no_first_means_none(m, pos, k);
    }
}

/// A controller starts in a consistent state.
pub proof fn lemma_initial_is_consistent()
    ensures
        ControllerModel::initial().consistent(),
{
}

/// No event leads out of the consistent states: after each one the heap is
/// well-formed, the selection names a block, a number is awaited only for a
/// selected block, and the pending break does not lie under the break.
pub proof fn lemma_step_keeps_consistent(m: ControllerModel, event: InputEvent)
    requires
        m.consistent(),
    ensures
        m.step(event).0.consistent(),
{
    let n = m.step(event).0;
    match event {
        InputEvent::PointerDown { pos, button } => {
            lemma_block_at_is_first(m, pos);
            if let Some(i) = m.open_menu() {
                lemma_free_keeps_wf(m.heap, i);
                lemma_coalesce_keeps_wf(m.heap, i - 1, i);
                lemma_coalesce_keeps_wf(m.heap, i, i + 1);
            }
        },
        InputEvent::PointerUp { pos, button } => {
            lemma_grow_keeps_wf(m.heap, m.sbrk.pending_break_offset as int);
        },
        InputEvent::Confirm => {
            if let Some(i) = m.open_menu() {
                if let Some(amount) = m.input.amount() {
                    lemma_allocate_keeps_wf(m.heap, i, amount as int);
                    lemma_split_keeps_wf(m.heap, i, amount as int);
                }
            }
        },
        _ => {},
    }
}

/// An event that is turned down leaves every block and the break as they
/// were, and only a click on a button or a confirmed number can be turned
/// down.
pub proof fn lemma_rejected_event_keeps_heap(m: ControllerModel, event: InputEvent)
    requires
        m.step(event).1 is Err,
    ensures
        m.step(event).0.heap == m.heap,
        event is PointerDown || event is Confirm,
{
}

/// Whatever comes of a confirmed number, the menu stops waiting and the
/// input is emptied.
pub proof fn lemma_confirm_ends_capture(m: ControllerModel)
    ensures
        m.confirm().0.menu_mode == MenuMode::Idle,
        m.menu_mode != MenuMode::Idle ==> m.confirm().0.input == crate::input::NumericInput::empty(),
{
}

} // verus!
