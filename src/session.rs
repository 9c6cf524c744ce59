//! The drag state machine. At most one entity is awaiting or being dragged at
//! any time; the state says which, so the exclusion holds by construction.
//!
//! Each frame runs the four steps in this order: `start_drag`, `await_drag`,
//! `drag_update`, `drop_resolve`, each on the frame's input snapshot and
//! pointer; `run_frame` does exactly that.

use vstd::prelude::*;
use crate::input::{InputFlags, CLICKS};
use crate::hit::{HitArea, Pointer, area_contains, is_in_bounds};
use crate::components::{
    EntityId, Draggable, Dragging, AwaitingDrag, DragOffset, Dragged, DragAwait, HoveredChange,
    Dropped, DragEvent,
};

verus! {

/// Who, if anyone, is awaiting a drag or being dragged.
#[derive(Clone, Copy, Debug, PartialEq, Eq, Structural)]
pub enum DragState {
    Idle,
    Awaiting { entity: EntityId, config: Draggable, awaiting: AwaitingDrag },
    Dragging { entity: EntityId, config: Draggable, dragging: Dragging },
}

/// A draggable entity as the start step sees it.
#[derive(Clone, Copy, Debug, PartialEq, Eq, Structural)]
pub struct Candidate {
    pub entity: EntityId,
    pub draggable: Draggable,
    pub area: HitArea,
    /// Stacking order: the greatest is on top.
    pub depth: i64,
}

/// A receiver entity and its bounds.
#[derive(Clone, Copy, Debug, PartialEq, Eq, Structural)]
pub struct ReceiverArea {
    pub entity: EntityId,
    pub area: HitArea,
}

/// What the host reports of the dragged entity each frame.
#[derive(Clone, Copy, Debug, PartialEq, Eq, Structural)]
pub struct Carried {
    /// It still has a layout parent.
    pub parented: bool,
    /// It carries a layout style.
    pub has_style: bool,
    pub offset: DragOffset,
}

/// Where the dragged entity is to be put this frame.
#[derive(Clone, Copy, Debug, PartialEq, Eq, Structural)]
pub enum Placement {
    /// Leave it where it is.
    Stay,
    /// Absolute screen position of a detached layout node; also bring it to
    /// the front.
    Absolute { left: i128, top: i128 },
    /// Move its transform to this world position, keeping its depth.
    Follow { x: i64, y: i64 },
}

/// What the drag-update step asks of the host.
#[derive(Debug)]
pub struct UpdateOutcome {
    /// Detach the entity from its layout parent.
    pub detach: bool,
    pub placement: Placement,
    pub events: Vec<DragEvent>,
}

/// The layout state of a draggable entity, by entity.
#[derive(Clone, Copy, Debug, PartialEq, Eq, Structural)]
pub struct CarriedEntity {
    pub entity: EntityId,
    pub carried: Carried,
}

/// Everything one frame hands the state machine.
#[derive(Debug)]
pub struct Frame {
    pub inputs: InputFlags,
    pub pointer: Option<Pointer>,
    /// Elapsed time, in microseconds.
    pub now: u64,
    pub candidates: Vec<Candidate>,
    pub receivers: Vec<ReceiverArea>,
    /// The layout state of the draggable entities; one that is missing is
    /// neither moved nor hover-tracked this frame.
    pub carried: Vec<CarriedEntity>,
}

/// What one frame asks of the host.
#[derive(Debug)]
pub struct FrameOutcome {
    /// The entity that `detach` and `placement` apply to, if the drag-update
    /// step ran.
    pub moved: Option<EntityId>,
    pub detach: bool,
    pub placement: Placement,
    /// The events of the four steps, in order.
    pub events: Vec<DragEvent>,
}

/// All `required` inputs are held and none of the `disallowed` ones.
pub open spec fn qualifies(d: Draggable, inputs: InputFlags) -> bool {
    inputs@ & d.required@ == d.required@ && inputs@ & d.disallowed@ == 0
}

pub open spec fn is_candidate(c: Candidate, inputs: InputFlags, p: Pointer) -> bool {
    area_contains(c.area, p) && qualifies(c.draggable, inputs)
}

pub open spec fn has_candidate(cs: Seq<Candidate>, inputs: InputFlags, p: Pointer) -> bool {
    exists|j: int| 0 <= j < cs.len() && #[trigger] is_candidate(cs[j], inputs, p)
}

/// Candidate `i` wins: it qualifies, every qualifying candidate before it
/// lies strictly lower, and none after it lies higher. Among the topmost,
/// the first wins.
pub open spec fn is_winner(cs: Seq<Candidate>, i: int, inputs: InputFlags, p: Pointer) -> bool {
    &&& 0 <= i < cs.len()
    &&& is_candidate(cs[i], inputs, p)
    &&& forall|j: int|
        0 <= j < i && #[trigger] is_candidate(cs[j], inputs, p) ==> cs[j].depth < cs[i].depth
    &&& forall|j: int|
        i < j < cs.len() && #[trigger] is_candidate(cs[j], inputs, p) ==> cs[j].depth
            <= cs[i].depth
}

pub open spec fn winner(cs: Seq<Candidate>, inputs: InputFlags, p: Pointer) -> int {
    choose|i: int| is_winner(cs, i, inputs, p)
}

/// `now + d`, or the largest time where that overflows.
pub open spec fn deadline(now: u64, d: u64) -> u64 {
    if now + d > u64::MAX {
        u64::MAX
    } else {
        (now + d) as u64
    }
}

/// Receiver `i` holds the pointer and none before it does.
pub open spec fn is_first_hit(rs: Seq<ReceiverArea>, p: Pointer, i: int) -> bool {
    &&& 0 <= i < rs.len()
    &&& area_contains(rs[i].area, p)
    &&& forall|j: int| 0 <= j < i ==> !area_contains(#[trigger] rs[j].area, p)
}

/// The first receiver, in the given order, under the pointer.
pub open spec fn hover_target(rs: Seq<ReceiverArea>, p: Pointer) -> Option<EntityId> {
    if exists|i: int| is_first_hit(rs, p, i) {
        Some(rs[choose|i: int| is_first_hit(rs, p, i)].entity)
    } else {
        None
    }
}

/// Start step: with a click held, the pointer present, nobody awaiting or
/// dragged, and a qualifying entity under the pointer, the topmost of them
/// begins to await its hold time, or is dragged at once if it has none.
pub open spec fn start_step(
    s: DragState,
    inputs: InputFlags,
    pointer: Option<Pointer>,
    cs: Seq<Candidate>,
    now: u64,
) -> (DragState, Seq<DragEvent>) {
    if s is Idle && inputs@ & CLICKS != 0 && pointer is Some && has_candidate(
        cs,
        inputs,
        pointer->0,
    ) {
        let w = cs[winner(cs, inputs, pointer->0)];
        match w.draggable.minimum_held {
            Some(d) => (
                DragState::Awaiting {
                    entity: w.entity,
                    config: w.draggable,
                    awaiting: AwaitingDrag { ends: deadline(now, d) },
                },
                seq![DragEvent::Await(DragAwait { awaiting: w.entity, inputs })],
            ),
            None => (
                DragState::Dragging {
                    entity: w.entity,
                    config: w.draggable,
                    dragging: Dragging { hovering: None, reparented: false },
                },
                seq![DragEvent::Dragged(Dragged { dragged: w.entity, inputs })],
            ),
        }
    } else {
        (s, seq![])
    }
}

/// Await step: while the inputs still qualify the entity waits, and is
/// dragged from the first frame at or after its deadline; once they do not,
/// the wait is cancelled without an event.
pub open spec fn await_step(s: DragState, inputs: InputFlags, now: u64) -> (
    DragState,
    Seq<DragEvent>,
) {
    match s {
        DragState::Awaiting { entity, config, awaiting } => {
            if qualifies(config, inputs) {
                if now >= awaiting.ends {
                    (
                        DragState::Dragging {
                            entity,
                            config,
                            dragging: Dragging { hovering: None, reparented: false },
                        },
                        seq![DragEvent::Dragged(Dragged { dragged: entity, inputs })],
                    )
                } else {
                    (s, seq![])
                }
            } else {
                (DragState::Idle, seq![])
            }
        },
        _ => (s, seq![]),
    }
}

/// The event, if any, for a hover that moves from `from` to `to`.
pub open spec fn hover_events(
    entity: EntityId,
    from: Option<EntityId>,
    to: Option<EntityId>,
    inputs: InputFlags,
) -> Seq<DragEvent> {
    if from == to {
        seq![]
    } else {
        seq![
            DragEvent::Hovered(
                HoveredChange { hovered: entity, receiver: to, prevreceiver: from, inputs },
            ),
        ]
    }
}

/// Where a dragged entity goes, given whether it is detached from its
/// parent after this frame's step.
pub open spec fn placement_of(c: Carried, detached: bool, p: Pointer) -> Placement {
    if c.has_style {
        if detached {
            Placement::Absolute {
                left: (p.screen.x - c.offset.x) as i128,
                top: (p.screen.y - c.offset.y) as i128,
            }
        } else if c.parented {
            Placement::Follow { x: p.world.x, y: p.world.y }
        } else {
            Placement::Stay
        }
    } else {
        Placement::Follow { x: p.world.x, y: p.world.y }
    }
}

/// Drag-update step: while dragging with the pointer present, detach the
/// entity from its parent the first time, place it, and track the receiver
/// under the pointer. Returns the new state, whether to detach, the
/// placement and the events.
pub open spec fn update_step(
    s: DragState,
    inputs: InputFlags,
    pointer: Option<Pointer>,
    c: Carried,
    rs: Seq<ReceiverArea>,
) -> (DragState, bool, Placement, Seq<DragEvent>) {
    match s {
        DragState::Dragging { entity, config, dragging } => {
            if pointer is Some {
                let p = pointer->0;
                let detach = !dragging.reparented && c.parented;
                let reparented = dragging.reparented || c.parented;
                let target = hover_target(rs, p);
                (
                    DragState::Dragging {
                        entity,
                        config,
                        dragging: Dragging { hovering: target, reparented },
                    },
                    detach,
                    placement_of(c, reparented, p),
                    hover_events(entity, dragging.hovering, target, inputs),
                )
            } else {
                (s, false, Placement::Stay, seq![])
            }
        },
        _ => (s, false, Placement::Stay, seq![]),
    }
}

/// Drop step: once the dragged entity's required inputs are not all held,
/// and the pointer is present, clear the hover, report the receiver under
/// the pointer, and end the drag.
pub open spec fn drop_step(
    s: DragState,
    inputs: InputFlags,
    pointer: Option<Pointer>,
    rs: Seq<ReceiverArea>,
) -> (DragState, Seq<DragEvent>) {
    match s {
        DragState::Dragging { entity, config, dragging } => {
            if pointer is Some && inputs@ & config.required@ != config.required@ {
                (
                    DragState::Idle,
                    seq![
                        DragEvent::Hovered(
                            HoveredChange {
                                hovered: entity,
                                receiver: None,
                                prevreceiver: dragging.hovering,
                                inputs,
                            },
                        ),
                        DragEvent::Dropped(
                            Dropped {
                                dropped: entity,
                                received: hover_target(rs, pointer->0),
                                inputs,
                            },
                        ),
                    ],
                )
            } else {
                (s, seq![])
            }
        },
        _ => (s, seq![]),
    }
}

/// Entry `i` is the first for entity `e`.
pub open spec fn is_first_carried(cs: Seq<CarriedEntity>, e: EntityId, i: int) -> bool {
    &&& 0 <= i < cs.len()
    &&& cs[i].entity == e
    &&& forall|j: int| 0 <= j < i ==> (#[trigger] cs[j]).entity != e
}

/// The layout state given for entity `e`, first entry first.
pub open spec fn carried_of(cs: Seq<CarriedEntity>, e: EntityId) -> Option<Carried> {
    if exists|i: int| is_first_carried(cs, e, i) {
        Some(cs[choose|i: int| is_first_carried(cs, e, i)].carried)
    } else {
        None
    }
}

/// The drag-update step as a frame runs it: for the dragged entity, if its
/// layout state was given. Returns also the entity it applies to.
pub open spec fn frame_update(
    s: DragState,
    inputs: InputFlags,
    pointer: Option<Pointer>,
    cs: Seq<CarriedEntity>,
    rs: Seq<ReceiverArea>,
) -> (DragState, Option<EntityId>, bool, Placement, Seq<DragEvent>) {
    match s {
        DragState::Dragging { entity, .. } => match carried_of(cs, entity) {
            Some(c) => {
                let u = update_step(s, inputs, pointer, c, rs);
                (u.0, Some(entity), u.1, u.2, u.3)
            },
            None => (s, None, false, Placement::Stay, seq![]),
        },
        _ => (s, None, false, Placement::Stay, seq![]),
    }
}

/// One frame: the start, await, drag-update and drop steps in this order,
/// each on the state the one before left. Returns the final state, the
/// entity moved, whether to detach it, its placement and all events.
pub open spec fn frame_step(s: DragState, f: Frame) -> (
    DragState,
    Option<EntityId>,
    bool,
    Placement,
    Seq<DragEvent>,
) {
    let a = start_step(s, f.inputs, f.pointer, f.candidates@, f.now);
    let b = await_step(a.0, f.inputs, f.now);
    let c = frame_update(b.0, f.inputs, f.pointer, f.carried@, f.receivers@);
    let d = drop_step(c.0, f.inputs, f.pointer, f.receivers@);
    (d.0, c.1, c.2, c.3, a.1 + b.1 + c.4 + d.1)
}

/// Two winners are the same candidate.
pub proof fn lemma_winner_unique(
    cs: Seq<Candidate>,
    i: int,
    k: int,
    inputs: InputFlags,
    p: Pointer,
)
    requires
        is_winner(cs, i, inputs, p),
        is_winner(cs, k, inputs, p),
    ensures
        i == k,
{
    if i < k {
        assert(is_candidate(cs[i], inputs, p));
        assert(is_candidate(cs[k], inputs, p));
    } else if k < i {
        assert(is_candidate(cs[i], inputs, p));
        assert(is_candidate(cs[k], inputs, p));
    }
}

/// Two first hits are the same receiver.
pub proof fn lemma_first_hit_unique(rs: Seq<ReceiverArea>, p: Pointer, i: int, k: int)
    requires
        is_first_hit(rs, p, i),
        is_first_hit(rs, p, k),
    ensures
        i == k,
{
    if i < k {
        assert(!area_contains(rs[i].area, p));
    } else if k < i {
        assert(!area_contains(rs[k].area, p));
    }
}

/// The topmost qualifying candidate under the pointer, first of equals.
pub fn pick_candidate(cs: &Vec<Candidate>, inputs: InputFlags, p: &Pointer) -> (r: Option<usize>)
    ensures
        r is None <==> !has_candidate(cs@, inputs, *p),
        r matches Some(i) ==> is_winner(cs@, i as int, inputs, *p),
{
    let mut best: Option<usize> = None;
    let mut i: usize = 0;
    while i < cs.len()
        invariant
            i <= cs.len(),
            best is None <==> forall|j: int|
                0 <= j < i ==> !#[trigger] is_candidate(cs@[j], inputs, *p),
            best matches Some(b) ==> {
                &&& b < i
                &&& is_candidate(cs@[b as int], inputs, *p)
                &&& forall|j: int|
                    0 <= j < b && #[trigger] is_candidate(cs@[j], inputs, *p) ==> cs@[j].depth
                        < cs@[b as int].depth
                &&& forall|j: int|
                    b < j < i && #[trigger] is_candidate(cs@[j], inputs, *p) ==> cs@[j].depth
                        <= cs@[b as int].depth
            },
        decreases cs.len() - i,
    {
        let c = &cs[i];
        let hit = is_in_bounds(&c.area, p);
        let ok = inputs.contains(c.draggable.required) && !inputs.intersects(
            c.draggable.disallowed,
        );
        assert((hit && ok) == is_candidate(cs@[i as int], inputs, *p));
        if hit && ok {
            match best {
                None => {
                    best = Some(i);
                },
                Some(b) => {
                    if c.depth > cs[b].depth {
                        best = Some(i);
                    }
                },
            }
        }
        i = i + 1;
    }
    proof {
        if best is None {
            assert(!has_candidate(cs@, inputs, *p));
        }
    }
    best
}

/// The first receiver, in order, under the pointer.
pub fn find_receiver(rs: &Vec<ReceiverArea>, p: &Pointer) -> (r: Option<EntityId>)
    ensures
        r == hover_target(rs@, *p),
{
    let mut i: usize = 0;
    while i < rs.len()
        invariant
            i <= rs.len(),
            forall|j: int| 0 <= j < i ==> !area_contains(#[trigger] rs@[j].area, *p),
        decreases rs.len() - i,
    {
        if is_in_bounds(&rs[i].area, p) {
            assert(is_first_hit(rs@, *p, i as int));
            proof {
                let k = choose|k: int| is_first_hit(rs@, *p, k);
                lemma_first_hit_unique(rs@, *p, i as int, k);
            }
            return Some(rs[i].entity);
        }
        i = i + 1;
    }
    assert(!exists|k: int| is_first_hit(rs@, *p, k));
    None
}

/// The layout state given for `e`, first entry first.
pub fn find_carried(cs: &Vec<CarriedEntity>, e: EntityId) -> (r: Option<Carried>)
    ensures
        r == carried_of(cs@, e),
{
    let mut i: usize = 0;
    while i < cs.len()
        invariant
            i <= cs.len(),
            forall|j: int| 0 <= j < i ==> (#[trigger] cs@[j]).entity != e,
        decreases cs.len() - i,
    {
        if cs[i].entity == e {
            assert(is_first_carried(cs@, e, i as int));
            proof {
                let k = choose|k: int| is_first_carried(cs@, e, k);
                if k < i {
                    assert(cs@[k].entity != e);
                } else if i < k {
                    assert(cs@[i as int].entity != e);
                }
            }
            return Some(cs[i].carried);
        }
        i = i + 1;
    }
    assert(!exists|k: int| is_first_carried(cs@, e, k));
    None
}

impl DragState {
    pub fn new() -> (r: DragState)
        ensures
            r is Idle,
    {
        DragState::Idle
    }

    pub fn is_idle(&self) -> (r: bool)
        ensures
            r == (*self is Idle),
    {
        match self {
            DragState::Idle => true,
            _ => false,
        }
    }

    /// The entity being dragged, if any.
    pub fn dragged_entity(&self) -> (r: Option<EntityId>)
        ensures
            r == (match *self {
                DragState::Dragging { entity, .. } => Some(entity),
                _ => None,
            }),
    {
        match self {
            DragState::Dragging { entity, .. } => Some(*entity),
            _ => None,
        }
    }

    /// The entity awaiting its hold time, if any.
    pub fn awaiting_entity(&self) -> (r: Option<EntityId>)
        ensures
            r == (match *self {
                DragState::Awaiting { entity, .. } => Some(entity),
                _ => None,
            }),
    {
        match self {
            DragState::Awaiting { entity, .. } => Some(*entity),
            _ => None,
        }
    }

    /// Idle to awaiting or dragging: see `start_step`.
    pub fn start_drag(
        &mut self,
        inputs: InputFlags,
        pointer: Option<Pointer>,
        candidates: &Vec<Candidate>,
        now: u64,
    ) -> (r: Vec<DragEvent>)
        ensures
            (*final(self), r@) == start_step(*old(self), inputs, pointer, candidates@, now),
    {
        let mut events: Vec<DragEvent> = Vec::new();
        if !(self.is_idle() && inputs.intersects(InputFlags::clicks())) {
            return events;
        }
        let p = match pointer {
            Some(p) => p,
            None => {
                return events;
            },
        };
        match pick_candidate(candidates, inputs, &p) {
            None => {},
            Some(i) => {
                proof {
                    let k = winner(candidates@, inputs, p);
                    lemma_winner_unique(candidates@, i as int, k, inputs, p);
                }
                let w = candidates[i];
                match w.draggable.minimum_held {
                    Some(d) => {
                        *self =
                        DragState::Awaiting {
                            entity: w.entity,
                            config: w.draggable,
                            awaiting: AwaitingDrag { ends: now.saturating_add(d) },
                        };
                        events.push(DragEvent::Await(DragAwait { awaiting: w.entity, inputs }));
                    },
                    None => {
                        *self =
                        DragState::Dragging {
                            entity: w.entity,
                            config: w.draggable,
                            dragging: Dragging { hovering: None, reparented: false },
                        };
                        events.push(DragEvent::Dragged(Dragged { dragged: w.entity, inputs }));
                    },
                }
            },
        }
        proof {
            assert(events@ =~= start_step(*old(self), inputs, pointer, candidates@, now).1);
        }
        events
    }
    /// Awaiting to dragging or idle: see `await_step`.
    pub fn await_drag(&mut self, inputs: InputFlags, now: u64) -> (r: Vec<DragEvent>)
        ensures
            (*final(self), r@) == await_step(*old(self), inputs, now),
    {
        let mut events: Vec<DragEvent> = Vec::new();
        if let DragState::Awaiting { entity, config, awaiting } = *self {
            if inputs.contains(config.required) && !inputs.intersects(config.disallowed) {
                if now >= awaiting.ends {
                    *self =
                    DragState::Dragging {
                        entity,
                        config,
                        dragging: Dragging { hovering: None, reparented: false },
                    };
                    events.push(DragEvent::Dragged(Dragged { dragged: entity, inputs }));
                }
            } else {
                *self = DragState::Idle;
            }
        }
        proof {
            assert(events@ =~= await_step(*old(self), inputs, now).1);
        }
        events
    }

    /// Moves the dragged entity and tracks the receiver under the pointer:
    /// see `update_step`.
    pub fn drag_update(
        &mut self,
        inputs: InputFlags,
        pointer: Option<Pointer>,
        carried: Carried,
        receivers: &Vec<ReceiverArea>,
    ) -> (r: UpdateOutcome)
        ensures
            (*final(self), r.detach, r.placement, r.events@) == update_step(
                *old(self),
                inputs,
                pointer,
                carried,
                receivers@,
            ),
    {
        let mut events: Vec<DragEvent> = Vec::new();
        let mut detach = false;
        let mut placement = Placement::Stay;
        if let DragState::Dragging { entity, config, dragging } = *self {
            if let Some(p) = pointer {
                detach = !dragging.reparented && carried.parented;
                let reparented = dragging.reparented || carried.parented;
                placement =
                if carried.has_style {
                    if reparented {
                        Placement::Absolute {
                            left: p.screen.x as i128 - carried.offset.x as i128,
                            top: p.screen.y as i128 - carried.offset.y as i128,
                        }
                    } else if carried.parented {
                        Placement::Follow { x: p.world.x, y: p.world.y }
                    } else {
                        Placement::Stay
                    }
                } else {
                    Placement::Follow { x: p.world.x, y: p.world.y }
                };
                let target = find_receiver(receivers, &p);
                if target != dragging.hovering {
                    events.push(
                        DragEvent::Hovered(
                            HoveredChange {
                                hovered: entity,
                                receiver: target,
                                prevreceiver: dragging.hovering,
                                inputs,
                            },
                        ),
                    );
                }
                *self =
                DragState::Dragging {
                    entity,
                    config,
                    dragging: Dragging { hovering: target, reparented },
                };
            }
        }
        proof {
            assert(events@ =~= update_step(*old(self), inputs, pointer, carried, receivers@).3);
        }
        UpdateOutcome { detach, placement, events }
    }

    /// Dragging to idle once the required inputs are released: see
    /// `drop_step`.
    pub fn drop_resolve(
        &mut self,
        inputs: InputFlags,
        pointer: Option<Pointer>,
        receivers: &Vec<ReceiverArea>,
    ) -> (r: Vec<DragEvent>)
        ensures
            (*final(self), r@) == drop_step(*old(self), inputs, pointer, receivers@),
    {
        let mut events: Vec<DragEvent> = Vec::new();
        if let DragState::Dragging { entity, config, dragging } = *self {
            if let Some(p) = pointer {
                if !inputs.contains(config.required) {
                    let received = find_receiver(receivers, &p);
                    events.push(
                        DragEvent::Hovered(
                            HoveredChange {
                                hovered: entity,
                                receiver: None,
                                prevreceiver: dragging.hovering,
                                inputs,
                            },
                        ),
                    );
                    events.push(DragEvent::Dropped(Dropped { dropped: entity, received, inputs }));
                    *self = DragState::Idle;
                }
            }
        }
        proof {
            assert(events@ =~= drop_step(*old(self), inputs, pointer, receivers@).1);
        }
        events
    }
    /// Runs one frame: see `frame_step`.
    pub fn run_frame(&mut self, frame: &Frame) -> (r: FrameOutcome)
        ensures
            (*final(self), r.moved, r.detach, r.placement, r.events@) == frame_step(
                *old(self),
                *frame,
            ),
    {
        let mut events = self.start_drag(frame.inputs, frame.pointer, &frame.candidates, frame.now);
        let mut awaited = self.await_drag(frame.inputs, frame.now);
        events.append(&mut awaited);
        let mut moved: Option<EntityId> = None;
        let mut detach = false;
        let mut placement = Placement::Stay;
        if let Some(e) = self.dragged_entity() {
            if let Some(c) = find_carried(&frame.carried, e) {
                let mut out = self.drag_update(frame.inputs, frame.pointer, c, &frame.receivers);
                moved = Some(e);
                detach = out.detach;
                placement = out.placement;
                events.append(&mut out.events);
            }
        }
        let mut dropped = self.drop_resolve(frame.inputs, frame.pointer, &frame.receivers);
        events.append(&mut dropped);
        FrameOutcome { moved, detach, placement, events }
    }
}

} // verus!
