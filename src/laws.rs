//! Properties of the state machine across steps and frames.

use vstd::prelude::*;
use crate::input::{InputFlags, CLICKS};
use crate::hit::{Pointer, area_contains};
use crate::components::{EntityId, Dragging, AwaitingDrag, Dragged, HoveredChange, Dropped, DragEvent};
use crate::session::{
    DragState, Candidate, ReceiverArea, Carried, qualifies, has_candidate, winner, is_first_hit,
    hover_target, start_step, await_step, update_step, drop_step, lemma_first_hit_unique,
};

verus! {

/// The entities awaiting their hold time.
pub open spec fn awaiting_set(s: DragState) -> Set<EntityId> {
    match s {
        DragState::Awaiting { entity, .. } => set![entity],
        _ => Set::empty(),
    }
}

/// The entities being dragged.
pub open spec fn dragging_set(s: DragState) -> Set<EntityId> {
    match s {
        DragState::Dragging { entity, .. } => set![entity],
        _ => Set::empty(),
    }
}

/// In every state at most one entity is awaiting or being dragged, and the
/// start step begins nothing unless nobody is.
pub proof fn mutual_exclusion(
    s: DragState,
    inputs: InputFlags,
    pointer: Option<Pointer>,
    cs: Seq<Candidate>,
    now: u64,
)
    ensures
        awaiting_set(s).finite(),
        dragging_set(s).finite(),
        awaiting_set(s).len() + dragging_set(s).len() <= 1,
        awaiting_set(s).len() + dragging_set(s).len() != 0 ==> start_step(
            s,
            inputs,
            pointer,
            cs,
            now,
        ) == (s, Seq::<DragEvent>::empty()),
{
    match s {
        DragState::Idle => {},
        DragState::Awaiting { entity, .. } => {
            assert(set![entity].len() == 1);
        },
        DragState::Dragging { entity, .. } => {
            assert(set![entity].len() == 1);
        },
    }
}

/// The await step run over a sequence of frames, each an input snapshot and
/// a time; returns the final state and every event, in order.
pub open spec fn await_frames(s: DragState, frames: Seq<(InputFlags, u64)>) -> (
    DragState,
    Seq<DragEvent>,
)
    decreases frames.len(),
{
    if frames.len() == 0 {
        (s, seq![])
    } else {
        let prev = await_frames(s, frames.drop_last());
        let step = await_step(prev.0, frames.last().0, frames.last().1);
        (step.0, prev.1 + step.1)
    }
}

/// While the inputs qualify and the deadline has not come, waiting frames
/// change nothing and emit nothing.
proof fn lemma_waiting(s: DragState, frames: Seq<(InputFlags, u64)>, k: int)
    requires
        s is Awaiting,
        0 <= k <= frames.len(),
        forall|i: int|
            0 <= i < k ==> qualifies(s->Awaiting_config, #[trigger] frames[i].0) && frames[i].1
                < s->Awaiting_awaiting.ends,
    ensures
        await_frames(s, frames.take(k)) == (s, Seq::<DragEvent>::empty()),
    decreases k,
{
    if k > 0 {
        assert(frames.take(k).drop_last() =~= frames.take(k - 1));
        lemma_waiting(s, frames, k - 1);
        assert(frames.take(k).last() == frames[k - 1]);
        assert(Seq::<DragEvent>::empty() + Seq::<DragEvent>::empty() =~= Seq::<DragEvent>::empty());
    }
}

/// A drag begun at time `t` on an entity with a hold of `d` waits, and
/// becomes a drag with one `Dragged` event at the first frame whose time is
/// at least `t + d`, provided the inputs qualify in every frame until then;
/// if they stop qualifying before, the wait ends with no event at all.
pub proof fn hold_timer(
    cs: Seq<Candidate>,
    inputs: InputFlags,
    p: Pointer,
    t: u64,
    d: u64,
    frames: Seq<(InputFlags, u64)>,
    k: int,
)
    requires
        inputs@ & CLICKS != 0,
        has_candidate(cs, inputs, p),
        cs[winner(cs, inputs, p)].draggable.minimum_held == Some(d),
        t + d <= u64::MAX,
        0 <= k < frames.len(),
        forall|i: int| 0 <= i < k ==> #[trigger] frames[i].1 < t + d,
        forall|i: int|
            0 <= i < k ==> qualifies(
                cs[winner(cs, inputs, p)].draggable,
                #[trigger] frames[i].0,
            ),
    ensures
        ({
            let w = cs[winner(cs, inputs, p)];
            let s0 = start_step(DragState::Idle, inputs, Some(p), cs, t).0;
            &&& s0 == DragState::Awaiting {
                entity: w.entity,
                config: w.draggable,
                awaiting: AwaitingDrag { ends: (t + d) as u64 },
            }
            &&& await_frames(s0, frames.take(k)) == (s0, Seq::<DragEvent>::empty())
            &&& qualifies(w.draggable, frames[k].0) && frames[k].1 >= t + d ==> await_frames(
                s0,
                frames.take(k + 1),
            ) == (
                DragState::Dragging {
                    entity: w.entity,
                    config: w.draggable,
                    dragging: Dragging { hovering: None, reparented: false },
                },
                seq![DragEvent::Dragged(Dragged { dragged: w.entity, inputs: frames[k].0 })],
            )
            &&& !qualifies(w.draggable, frames[k].0) ==> await_frames(s0, frames.take(k + 1)) == (
                DragState::Idle,
                Seq::<DragEvent>::empty(),
            )
        }),
{
    let w = cs[winner(cs, inputs, p)];
    let s0 = start_step(DragState::Idle, inputs, Some(p), cs, t).0;
    lemma_waiting(s0, frames, k);
    assert(frames.take(k + 1).drop_last() =~= frames.take(k));
    assert(frames.take(k + 1).last() == frames[k]);
    assert(Seq::<DragEvent>::empty() + Seq::<DragEvent>::empty() =~= Seq::<DragEvent>::empty());
    let ev = seq![DragEvent::Dragged(Dragged { dragged: w.entity, inputs: frames[k].0 })];
    assert(Seq::<DragEvent>::empty() + ev =~= ev);
}

/// Moving the pointer from receiver `a` onto receiver `b` during a drag
/// emits exactly one event, from `a` to `b`, and the hover becomes `b`.
pub proof fn hover_transition(
    s: DragState,
    inputs: InputFlags,
    p: Pointer,
    c: Carried,
    rs: Seq<ReceiverArea>,
    ib: int,
)
    requires
        s is Dragging,
        s->Dragging_dragging.hovering is Some,
        is_first_hit(rs, p, ib),
        s->Dragging_dragging.hovering != Some(rs[ib].entity),
    ensures
        ({
            let r = update_step(s, inputs, Some(p), c, rs);
            &&& r.0 is Dragging
            &&& r.0->Dragging_dragging.hovering == Some(rs[ib].entity)
            &&& r.3 == seq![
                DragEvent::Hovered(
                    HoveredChange {
                        hovered: s->Dragging_entity,
                        receiver: Some(rs[ib].entity),
                        prevreceiver: s->Dragging_dragging.hovering,
                        inputs,
                    },
                ),
            ]
        }),
{
    let k = choose|k: int| is_first_hit(rs, p, k);
    lemma_first_hit_unique(rs, p, ib, k);
}

/// After an update the hover, when there is one, names a receiver that was
/// handed in and that lies under the pointer.
pub proof fn hover_names_receiver(
    s: DragState,
    inputs: InputFlags,
    p: Pointer,
    c: Carried,
    rs: Seq<ReceiverArea>,
)
    requires
        s is Dragging,
    ensures
        ({
            let r = update_step(s, inputs, Some(p), c, rs);
            r.0 is Dragging && (r.0->Dragging_dragging.hovering matches Some(h) ==> exists|i: int|
                0 <= i < rs.len() && rs[i].entity == h && area_contains(rs[i].area, p))
        }),
{
    if exists|i: int| is_first_hit(rs, p, i) {
        let i = choose|i: int| is_first_hit(rs, p, i);
        assert(0 <= i < rs.len() && rs[i].entity == rs[i].entity && area_contains(rs[i].area, p));
    }
}

/// Releasing the required inputs ends the drag: the hover is cleared, then
/// `Dropped` names the receiver under the pointer (none if no receiver is),
/// and the next start step may begin a drag again.
pub proof fn drop_correctness(
    s: DragState,
    inputs: InputFlags,
    p: Pointer,
    rs: Seq<ReceiverArea>,
    next_inputs: InputFlags,
    next_pointer: Pointer,
    next_cs: Seq<Candidate>,
    now: u64,
)
    requires
        s is Dragging,
        inputs@ & s->Dragging_config.required@ != s->Dragging_config.required@,
    ensures
        ({
            let r = drop_step(s, inputs, Some(p), rs);
            &&& r.0 is Idle
            &&& r.1.len() == 2
            &&& r.1[0] == DragEvent::Hovered(
                HoveredChange {
                    hovered: s->Dragging_entity,
                    receiver: None,
                    prevreceiver: s->Dragging_dragging.hovering,
                    inputs,
                },
            )
            &&& forall|i: int|
                is_first_hit(rs, p, i) ==> r.1[1] == DragEvent::Dropped(
                    Dropped { dropped: s->Dragging_entity, received: Some(rs[i].entity), inputs },
                )
            &&& (forall|i: int| 0 <= i < rs.len() ==> !area_contains(#[trigger] rs[i].area, p))
                ==> r.1[1] == DragEvent::Dropped(
                Dropped { dropped: s->Dragging_entity, received: None, inputs },
            )
            &&& next_inputs@ & CLICKS != 0 && has_candidate(next_cs, next_inputs, next_pointer)
                ==> !(start_step(r.0, next_inputs, Some(next_pointer), next_cs, now).0 is Idle)
        }),
{
    assert forall|i: int| is_first_hit(rs, p, i) implies hover_target(rs, p) == Some(
        rs[i].entity,
    ) by {
        let k = choose|k: int| is_first_hit(rs, p, k);
        lemma_first_hit_unique(rs, p, i, k);
    }
}

} // verus!
