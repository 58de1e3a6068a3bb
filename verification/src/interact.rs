//! The interaction tracker: per-tick hover recomputation, single-drag
//! selection, drag position snapping, and the combine request emitted when
//! a drag ends over a hovered target. Each step's effect is written as a
//! function on the slot sequence, so that the tick pipeline's contract can
//! compose them.

use vstd::prelude::*;
use crate::geom::{Vec2, check_within_radius, within_radius};
use crate::world::{World, Entity, dragged_at, hovered_at, live_at};

verus! {

/// The message produced when a drag ends over a hovered target: the
/// hovered entity is the base, the released entity the addition, and the
/// location is the pointer position at release time.
#[derive(Clone, Copy, Debug, PartialEq, Eq, Structural)]
pub struct CombineRequest {
    pub base: usize,
    pub addition: usize,
    pub location: Vec2,
}

/// The hover flag an entity ends the tick with: the pointer is present,
/// rests within the entity's activation radius, and the entity is live and
/// not the one being dragged.
pub open spec fn hover_state(s: Seq<Entity>, pointer: Option<Vec2>, i: int) -> bool {
    match pointer {
        Some(p) => live_at(s, i) && !s[i].dragged && within_radius(s[i].pos, p, s[i].radius),
        None => false,
    }
}

/// Whether `i` indexes a live entity whose activation radius contains `p`.
pub open spec fn is_target(s: Seq<Entity>, p: Vec2, i: int) -> bool {
    live_at(s, i) && within_radius(s[i].pos, p, s[i].radius)
}

/// Index of the first drag target at or after `from`, or `s.len()` when
/// there is none: the deterministic lowest-index tie-break for overlapping
/// activation radii.
pub open spec fn first_target_from(s: Seq<Entity>, p: Vec2, from: int) -> int
    decreases s.len() - from,
{
    if from < 0 || from >= s.len() {
        s.len() as int
    } else if is_target(s, p, from) {
        from
    } else {
        first_target_from(s, p, from + 1)
    }
}

/// Index of the first dragged slot at or after `from`, or `s.len()` when
/// there is none; under the arena invariant it is the only one.
pub open spec fn first_dragged_from(s: Seq<Entity>, from: int) -> int
    decreases s.len() - from,
{
    if from < 0 || from >= s.len() {
        s.len() as int
    } else if dragged_at(s, from) {
        from
    } else {
        first_dragged_from(s, from + 1)
    }
}

/// Index of the first hovered slot at or after `from`, or `s.len()` when
/// there is none.
pub open spec fn first_hovered_from(s: Seq<Entity>, from: int) -> int
    decreases s.len() - from,
{
    if from < 0 || from >= s.len() {
        s.len() as int
    } else if hovered_at(s, from) {
        from
    } else {
        first_hovered_from(s, from + 1)
    }
}

/// The slot sequence after one hover recomputation: every hover flag is
/// recomputed from the pointer, and nothing else moves.
pub open spec fn hover_slots(s: Seq<Entity>, pointer: Option<Vec2>) -> Seq<Entity> {
    Seq::new(s.len(), |i: int| Entity { hovered: hover_state(s, pointer, i), ..s[i] })
}

/// The slot sequence after a press at `p`: the first live entity whose
/// radius contains `p` gains the drag with its hover flag cleared and its
/// collision response suspended; nothing changes when a drag is already
/// active or nothing is hit.
pub open spec fn drag_start_slots(s: Seq<Entity>, p: Vec2) -> Seq<Entity> {
    let k = first_target_from(s, p, 0);
    if first_dragged_from(s, 0) < s.len() || k == s.len() {
        s
    } else {
        s.update(k, (Entity { dragged: true, hovered: false, collisions_on: false, ..s[k] }))
    }
}

/// The slot sequence after one drag-position update: with the pointer
/// present, the dragged entity snaps to it exactly; with the pointer
/// absent, or with no drag active, nothing moves.
pub open spec fn drag_update_slots(s: Seq<Entity>, pointer: Option<Vec2>) -> Seq<Entity> {
    let a = first_dragged_from(s, 0);
    if pointer is Some && a < s.len() {
        s.update(a, (Entity { pos: pointer->0, ..s[a] }))
    } else {
        s
    }
}

/// The slot sequence after a release: the dragged entity, if any, is
/// released at rest with its collision response restored.
pub open spec fn drag_end_slots(s: Seq<Entity>) -> Seq<Entity> {
    let a = first_dragged_from(s, 0);
    if a < s.len() {
        s.update(
            a,
            (Entity { dragged: false, vel: Vec2 { x: 0, y: 0 }, collisions_on: true, ..s[a] }),
        )
    } else {
        s
    }
}

/// The combine request a release emits: present exactly when an entity
/// was dragged, some entity is hovered, and the pointer is present; the
/// hovered entity is the base, the dragged one the addition, and the
/// location is the pointer's position.
pub open spec fn drag_end_req(s: Seq<Entity>, pointer: Option<Vec2>) -> Option<CombineRequest> {
    let a = first_dragged_from(s, 0);
    let b = first_hovered_from(s, 0);
    if pointer is Some && a < s.len() && b < s.len() {
        Some(CombineRequest { base: b as usize, addition: a as usize, location: pointer->0 })
    } else {
        None
    }
}

/// `first_target_from` stays within `[from, s.len()]`.
pub proof fn lemma_first_target_bounds(s: Seq<Entity>, p: Vec2, from: int)
    requires
        0 <= from <= s.len(),
    ensures
        from <= first_target_from(s, p, from) <= s.len(),
    decreases s.len() - from,
{
    if from < s.len() && !is_target(s, p, from) {
        lemma_first_target_bounds(s, p, from + 1);
    }
}

/// `first_dragged_from` stays within `[from, s.len()]`.
pub proof fn lemma_first_dragged_bounds(s: Seq<Entity>, from: int)
    requires
        0 <= from <= s.len(),
    ensures
        from <= first_dragged_from(s, from) <= s.len(),
    decreases s.len() - from,
{
    if from < s.len() && !dragged_at(s, from) {
        lemma_first_dragged_bounds(s, from + 1);
    }
}

/// `first_hovered_from` stays within `[from, s.len()]`.
pub proof fn lemma_first_hovered_bounds(s: Seq<Entity>, from: int)
    requires
        0 <= from <= s.len(),
    ensures
        from <= first_hovered_from(s, from) <= s.len(),
    decreases s.len() - from,
{
    if from < s.len() && !hovered_at(s, from) {
        lemma_first_hovered_bounds(s, from + 1);
    }
}

impl World {
    /// Recomputes every hover flag from the pointer: with the pointer
    /// present, a live, undragged entity hovers exactly when the pointer
    /// is inside its activation radius; with the pointer absent, nothing
    /// hovers. Nothing else changes.
    pub fn update_hover(&mut self, pointer: Option<Vec2>)
        requires
            old(self).wf(),
        ensures
            final(self).wf(),
            final(self).slots@ == hover_slots(old(self).slots@, pointer),
            final(self).texts@ == old(self).texts@,
    {
        let ghost w0 = *self;
        match pointer {
            Some(p) => {
                let n = self.slots.len();
                let mut k: usize = 0;
                while k < n
                    invariant
                        n == self.slots@.len(),
                        k <= n,
                        self.texts@ == w0.texts@,
                        w0.slots@.len() == n,
                        forall|i: int|
                            0 <= i < k ==> self.slots@[i] == (Entity {
                                hovered: hover_state(w0.slots@, Some(p), i),
                                ..w0.slots@[i]
                            }),
                        forall|i: int| k <= i < n ==> self.slots@[i] == w0.slots@[i],
                    decreases n - k,
                {
                    let e = self.slots[k];
                    let hov = e.alive && !e.dragged && check_within_radius(e.pos, p, e.radius);
                    self.slots[k] = Entity { hovered: hov, ..e };
                    k += 1;
                }
                proof {
                    lemma_wf_after_hover(w0, *self, pointer);
                    let hs = hover_slots(w0.slots@, pointer);
                    assert forall|i: int|
                        0 <= i < self.slots@.len() implies self.slots@[i] == hs[i] by {}
                    assert(self.slots@ =~= hs);
                }
            },
            None => {
                self.clear_hover();
                proof {
                    let hs = hover_slots(w0.slots@, pointer);
                    assert forall|i: int|
                        0 <= i < self.slots@.len() implies self.slots@[i] == hs[i] by {}
                    assert(self.slots@ =~= hs);
                }
            },
        }
    }

    /// The handle of the entity being dragged, if any; under the arena
    /// invariant it is unique.
    pub fn find_dragged(&self) -> (r: Option<usize>)
        ensures
            r == (if first_dragged_from(self.slots@, 0) < self.slots@.len() {
                Some(first_dragged_from(self.slots@, 0) as usize)
            } else {
                None::<usize>
            }),
            r matches Some(id) ==> id as int == first_dragged_from(self.slots@, 0)
                && self.is_dragged(id as int),
            r is None ==> forall|i: int| !self.is_dragged(i),
    {
        let n = self.slots.len();
        let mut k: usize = 0;
        while k < n
            invariant
                n == self.slots@.len(),
                k <= n,
                first_dragged_from(self.slots@, 0) == first_dragged_from(self.slots@, k as int),
                forall|i: int| 0 <= i < k ==> !self.is_dragged(i),
            decreases n - k,
        {
            let e = self.slots[k];
            if e.alive && e.dragged {
                return Some(k);
            }
            k += 1;
        }
        None
    }

    /// The handle of the first hovered entity, if any: the release-time
    /// base candidate.
    pub fn find_hovered(&self) -> (r: Option<usize>)
        ensures
            r == (if first_hovered_from(self.slots@, 0) < self.slots@.len() {
                Some(first_hovered_from(self.slots@, 0) as usize)
            } else {
                None::<usize>
            }),
            r matches Some(id) ==> id as int == first_hovered_from(self.slots@, 0)
                && self.is_hovered(id as int),
            r is None ==> forall|i: int| !self.is_hovered(i),
    {
        let n = self.slots.len();
        let mut k: usize = 0;
        while k < n
            invariant
                n == self.slots@.len(),
                k <= n,
                first_hovered_from(self.slots@, 0) == first_hovered_from(self.slots@, k as int),
                forall|i: int| 0 <= i < k ==> !self.is_hovered(i),
            decreases n - k,
        {
            let e = self.slots[k];
            if e.alive && e.hovered {
                return Some(k);
            }
            k += 1;
        }
        None
    }

    /// On a pointer press: applies `drag_start_slots` — the first live
    /// entity whose activation radius contains the pointer is marked
    /// dragged, its hover flag cleared and its collision response
    /// suspended; a press while a drag is already active, or over empty
    /// ground, changes nothing. Only one entity may be dragged at a time.
    pub fn drag_start(&mut self, pointer: Vec2)
        requires
            old(self).wf(),
        ensures
            final(self).wf(),
            final(self).slots@ == drag_start_slots(old(self).slots@, pointer),
            final(self).texts@ == old(self).texts@,
    {
        let ghost w0 = *self;
        if self.find_dragged().is_some() {
            return ;
        }
        let n = self.slots.len();
        let mut k: usize = 0;
        while k < n
            invariant
                *self == w0,
                w0 == *old(self),
                w0.wf(),
                n == self.slots@.len(),
                k <= n,
                first_target_from(w0.slots@, pointer, 0) == first_target_from(
                    w0.slots@,
                    pointer,
                    k as int,
                ),
                !(first_dragged_from(w0.slots@, 0) < w0.slots@.len()),
                forall|i: int| !w0.is_dragged(i),
            decreases n - k,
        {
            let e = self.slots[k];
            if e.alive && check_within_radius(e.pos, pointer, e.radius) {
                self.slots[k] = Entity {
                    dragged: true,
                    hovered: false,
                    collisions_on: false,
                    ..e
                };
                proof {
                    lemma_wf_after_drag_start(w0, *self, k as int);
                }
                return ;
            }
            k += 1;
        }
    }

    /// While a drag is active and the pointer is present, snaps the
    /// dragged entity's position to the pointer exactly; with the pointer
    /// absent the position is simply not updated this tick.
    pub fn drag_update(&mut self, pointer: Option<Vec2>)
        requires
            old(self).wf(),
        ensures
            final(self).wf(),
            final(self).slots@ == drag_update_slots(old(self).slots@, pointer),
            final(self).texts@ == old(self).texts@,
    {
        if let Some(p) = pointer {
            if let Some(id) = self.find_dragged() {
                let e = self.slots[id];
                self.slots[id] = Entity { pos: p, ..e };
                proof {
                    assert forall|i: int, j: int|
                        self.is_dragged(i) && self.is_dragged(j) implies i == j by {
                        assert(old(self).is_dragged(i) && old(self).is_dragged(j));
                    }
                }
            }
        }
    }

    /// On a pointer release: applies `drag_end_slots` — the dragged
    /// entity, if any, is released with its collision response restored
    /// and brought to rest — and returns `drag_end_req`: the combine
    /// request pairing the hovered base with the released addition at the
    /// pointer's location, when all three exist. The two are distinct
    /// because a dragged entity never hovers.
    pub fn drag_end(&mut self, pointer: Option<Vec2>) -> (r: Option<CombineRequest>)
        requires
            old(self).wf(),
        ensures
            final(self).wf(),
            final(self).slots@ == drag_end_slots(old(self).slots@),
            final(self).texts@ == old(self).texts@,
            r == drag_end_req(old(self).slots@, pointer),
            r matches Some(q) ==> q.base != q.addition && old(self).live(q.base as int) && old(
                self,
            ).live(q.addition as int),
    {
        let addition = self.find_dragged();
        let base = self.find_hovered();
        if let Some(id) = addition {
            let e = self.slots[id];
            self.slots[id] = Entity {
                dragged: false,
                vel: Vec2 { x: 0, y: 0 },
                collisions_on: true,
                ..e
            };
            proof {
                lemma_first_dragged_bounds(old(self).slots@, 0);
                assert forall|i: int, j: int|
                    self.is_dragged(i) && self.is_dragged(j) implies i == j by {
                    assert(old(self).is_dragged(i) && old(self).is_dragged(j));
                }
            }
        }
        match (addition, base, pointer) {
            (Some(a), Some(b), Some(p)) => Some(
                CombineRequest { base: b, addition: a, location: p },
            ),
            _ => None,
        }
    }
}

/// Recomputing hover flags preserves the arena invariant: a flag is only
/// set on a live, undragged entity, and drag flags do not move.
proof fn lemma_wf_after_hover(w0: World, w1: World, pointer: Option<Vec2>)
    requires
        w0.wf(),
        w1.slots@.len() == w0.slots@.len(),
        forall|i: int|
            0 <= i < w0.slots@.len() ==> #[trigger] w1.slots@[i] == (Entity {
                hovered: hover_state(w0.slots@, pointer, i),
                ..w0.slots@[i]
            }),
    ensures
        w1.wf(),
{
    assert forall|i: int| 0 <= i < w1.slots@.len() implies crate::world::entity_ok(
        #[trigger] w1.slots@[i],
    ) by {
        assert(crate::world::entity_ok(w0.slots@[i]));
    }
    assert forall|i: int, j: int| w1.is_dragged(i) && w1.is_dragged(j) implies i == j by {
        assert(w0.is_dragged(i) && w0.is_dragged(j));
    }
}

/// Marking a drag target in a world with no active drag preserves the
/// arena invariant: the new dragged entity is the only one, and its hover
/// flag is cleared.
proof fn lemma_wf_after_drag_start(w0: World, w1: World, k: int)
    requires
        w0.wf(),
        forall|i: int| !w0.is_dragged(i),
        w0.live(k),
        w1.slots@ == w0.slots@.update(
            k,
            (Entity { dragged: true, hovered: false, collisions_on: false, ..w0.slots@[k] }),
        ),
    ensures
        w1.wf(),
{
    assert forall|i: int| 0 <= i < w1.slots@.len() implies crate::world::entity_ok(
        #[trigger] w1.slots@[i],
    ) by {
        assert(crate::world::entity_ok(w0.slots@[i]));
    }
    assert forall|i: int, j: int| w1.is_dragged(i) && w1.is_dragged(j) implies i == j by {
        if i != k {
            assert(!w0.is_dragged(i));
        }
        if j != k {
            assert(!w0.is_dragged(j));
        }
    }
}

} // verus!
