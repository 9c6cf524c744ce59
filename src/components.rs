//! The data attached to scene entities, and the events the state machine
//! emits. Entities are the host's opaque handles, carried as `u64`.

use vstd::prelude::*;
use crate::input::{InputFlags, LEFT_CLICK, RIGHT_CLICK, MIDDLE_CLICK};

verus! {

/// An entity handle of the host.
pub type EntityId = u64;

/// Makes an entity draggable.
#[derive(Clone, Copy, Debug, PartialEq, Eq, Structural)]
pub struct Draggable {
    /// All of these inputs must be held for a drag to begin.
    pub required: InputFlags,
    /// A drag does not begin while any of these is held.
    pub disallowed: InputFlags,
    /// How long, in microseconds, the inputs must be held before the drag
    /// begins; `None` begins it at once.
    pub minimum_held: Option<u64>,
}

impl Default for Draggable {
    /// Left click required, right and middle click disallowed, no hold.
    fn default() -> (r: Draggable)
        ensures
            r.required@ == LEFT_CLICK,
            r.disallowed@ == RIGHT_CLICK | MIDDLE_CLICK,
            r.required.wf(),
            r.disallowed.wf(),
            r.minimum_held is None,
    {
        Draggable {
            required: InputFlags::left_click(),
            disallowed: InputFlags::right_click().union(InputFlags::middle_click()),
            minimum_held: None,
        }
    }
}

/// The state of an entity that is being dragged.
#[derive(Clone, Copy, Debug, PartialEq, Eq, Structural)]
pub struct Dragging {
    /// The receiver under the pointer, if any.
    pub hovering: Option<EntityId>,
    /// Whether the entity has been taken out of its layout parent.
    pub reparented: bool,
}

/// The state of an entity whose inputs must be held until `ends`.
#[derive(Clone, Copy, Debug, PartialEq, Eq, Structural)]
pub struct AwaitingDrag {
    /// The time, in microseconds, at which the drag may begin.
    pub ends: u64,
}

/// Marks an entity on which a dragged entity may be dropped.
#[derive(Clone, Copy, Debug, PartialEq, Eq, Structural)]
pub struct Receiver;

/// The distance between the pointer and the origin of a dragged layout node.
#[derive(Clone, Copy, Debug, PartialEq, Eq, Structural)]
pub struct DragOffset {
    pub x: i64,
    pub y: i64,
}

impl DragOffset {
    pub fn new(x: i64, y: i64) -> (r: DragOffset)
        ensures
            r == (DragOffset { x, y }),
    {
        DragOffset { x, y }
    }
}

/// Sent when an entity is released.
#[derive(Clone, Copy, Debug, PartialEq, Eq, Structural)]
pub struct Dropped {
    pub dropped: EntityId,
    /// The receiver under the pointer when it was released, if any.
    pub received: Option<EntityId>,
    pub inputs: InputFlags,
}

/// Sent when an entity begins to be dragged.
#[derive(Clone, Copy, Debug, PartialEq, Eq, Structural)]
pub struct Dragged {
    pub dragged: EntityId,
    pub inputs: InputFlags,
}

/// Sent when an entity begins to wait for its hold time.
#[derive(Clone, Copy, Debug, PartialEq, Eq, Structural)]
pub struct DragAwait {
    pub awaiting: EntityId,
    pub inputs: InputFlags,
}

/// Sent when the receiver under a dragged entity changes, and when it is
/// dropped.
#[derive(Clone, Copy, Debug, PartialEq, Eq, Structural)]
pub struct HoveredChange {
    /// The dragged entity.
    pub hovered: EntityId,
    /// The receiver now under it; `None` when there is none or on a drop.
    pub receiver: Option<EntityId>,
    /// The receiver that was under it before.
    pub prevreceiver: Option<EntityId>,
    pub inputs: InputFlags,
}

/// Any of the four events, in the order they were emitted.
#[derive(Clone, Copy, Debug, PartialEq, Eq, Structural)]
pub enum DragEvent {
    Await(DragAwait),
    Dragged(Dragged),
    Hovered(HoveredChange),
    Dropped(Dropped),
}

} // verus!
