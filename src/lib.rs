//! Pointer-driven drag and drop: input snapshots, hit testing and the
//! per-frame state machine that picks up, carries and drops entities.

pub mod input;
pub mod hit;
pub mod components;
pub mod session;
pub mod laws;

pub use components::{
    AwaitingDrag, DragAwait, DragEvent, DragOffset, Draggable, Dragged, Dragging, Dropped,
    EntityId, HoveredChange, Receiver,
};
pub use input::InputFlags;
pub use session::{DragState, Frame, FrameOutcome};
