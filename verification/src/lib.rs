//! A model of a heap allocator's memory layout, made for teaching.
//!
//! The heap is a strip of contiguous blocks that starts at address zero and
//! ends at the break. [`Heap`] owns the blocks and offers the five operations
//! that change them: grow, allocate, free, split and coalesce. [`Controller`]
//! turns pointer and key events into those operations and keeps the state
//! that belongs to the user interface alone.

pub mod block;
pub mod controller;
pub mod error;
pub mod geometry;
pub mod heap;
pub mod input;
pub mod laws;
pub mod menu;
pub mod model;
pub mod sbrk;

pub use block::{Block, BlockModel, MEM_GAP, MIN_BLOCK_SIZE, SBRK_MENU_PX};
pub use controller::{Controller, ControllerModel, HitTarget, InputEvent, MenuMode, MouseButton};
pub use error::HeapError;
pub use geometry::{Point, Rect};
pub use heap::Heap;
pub use input::NumericInput;
pub use menu::{AllocationMenu, Button};
pub use model::{HeapModel, HeapOp};
pub use sbrk::SbrkDescriptor;
