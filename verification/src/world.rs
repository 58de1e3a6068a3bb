//! The entity arena: slimes, spiders, their interaction flags, and the
//! text overlays that shadow them. Handles are indices into the arena;
//! despawning leaves a dead slot behind so that stale handles can be
//! recognized and discarded.

use vstd::prelude::*;
use crate::color::SlimeColor;
use crate::geom::Vec2;

verus! {

/// Base activation radius of a slime, per point of size above zero.
pub const SLIME_RADIUS: u32 = 14;

/// Base activation radius of a spider, per level above zero.
pub const SPIDER_RADIUS: u32 = 18;

/// Smallest slime size.
pub const SLIME_SIZE_MIN: u32 = 1;

/// Largest slime size.
pub const SLIME_SIZE_MAX: u32 = 5;

/// Smallest spider level.
pub const SPIDER_LEVEL_MIN: u32 = 1;

/// Largest spider level.
pub const SPIDER_LEVEL_MAX: u32 = 4;

/// Game data of a slime: its color and its size in `[1, 5]`.
#[derive(Clone, Copy, Debug, PartialEq, Eq, Structural)]
pub struct SlimeData {
    pub color: SlimeColor,
    pub size: u32,
}

/// Game data of a spider: its level in `[1, 4]`, the color it is weak to,
/// and its leftward walking speed in world units.
#[derive(Clone, Copy, Debug, PartialEq, Eq, Structural)]
pub struct SpiderData {
    pub level: u32,
    pub weakness: SlimeColor,
    pub speed: i32,
}

/// What an arena slot holds.
#[derive(Clone, Copy, Debug, PartialEq, Eq, Structural)]
pub enum EntityKind {
    Slime(SlimeData),
    Spider(SpiderData),
}

/// One interactable entity: its game data, its place in the world, and the
/// interaction flags the tracker maintains.
#[derive(Clone, Copy, Debug, PartialEq, Eq, Structural)]
pub struct Entity {
    pub kind: EntityKind,
    pub pos: Vec2,
    pub vel: Vec2,
    /// Pointer activation radius, derived from size or level at spawn time.
    pub radius: u32,
    /// False once the entity has been despawned; dead slots keep their data
    /// but take part in nothing.
    pub alive: bool,
    /// Whether this entity is being dragged; at most one entity at a time.
    pub dragged: bool,
    /// Whether the pointer rests on this entity; never true while dragged.
    pub hovered: bool,
    /// Whether the physics collaborator should collide this entity;
    /// switched off for the duration of a drag.
    pub collisions_on: bool,
}

/// A text overlay shadowing an entity through a non-owning back-reference;
/// it is dropped once its owner is gone.
#[derive(Clone, Copy, Debug, PartialEq, Eq, Structural)]
pub struct TextOverlay {
    /// Arena index of the entity this text describes.
    pub owner: usize,
    /// Whether the text sits above the owner (spiders carry a second,
    /// lower line naming their weakness).
    pub above: bool,
}

/// Activation radius of a slime of size `size`.
pub open spec fn slime_radius_spec(size: u32) -> int {
    (1 + size as int) * SLIME_RADIUS
}

/// Activation radius of a spider of level `level`.
pub open spec fn spider_radius_spec(level: u32) -> int {
    (1 + level as int) * SPIDER_RADIUS
}

/// Per-entity well-formedness: game data in range, radius derived by the
/// spawn formulas, and no interaction flags on a dead slot.
pub open spec fn entity_ok(e: Entity) -> bool {
    &&& match e.kind {
        EntityKind::Slime(s) => SLIME_SIZE_MIN <= s.size <= SLIME_SIZE_MAX && e.radius
            == slime_radius_spec(s.size),
        EntityKind::Spider(s) => SPIDER_LEVEL_MIN <= s.level <= SPIDER_LEVEL_MAX && s.speed >= 0
            && e.radius == spider_radius_spec(s.level),
    }
    &&& !e.alive ==> (!e.dragged && !e.hovered)
}

/// Whether `i` indexes a live entity in the slot sequence.
pub open spec fn live_at(s: Seq<Entity>, i: int) -> bool {
    0 <= i < s.len() && s[i].alive
}

/// Whether `i` indexes the live entity being dragged.
pub open spec fn dragged_at(s: Seq<Entity>, i: int) -> bool {
    live_at(s, i) && s[i].dragged
}

/// Whether `i` indexes a live, hovered entity.
pub open spec fn hovered_at(s: Seq<Entity>, i: int) -> bool {
    live_at(s, i) && s[i].hovered
}

/// The text overlays after one validation sweep: an overlay survives
/// exactly when its owner is still alive.
pub open spec fn cleaned_texts(s: Seq<Entity>, t: Seq<Option<TextOverlay>>) -> Seq<
    Option<TextOverlay>,
> {
    Seq::new(
        t.len(),
        |i: int|
            if t[i] matches Some(ov) && live_at(s, ov.owner as int) {
                t[i]
            } else {
                None
            },
    )
}

/// The entity arena together with the text overlays that shadow it.
pub struct World {
    pub slots: Vec<Entity>,
    pub texts: Vec<Option<TextOverlay>>,
}

impl World {
    /// Number of arena slots, live or dead.
    pub open spec fn num_slots(self) -> int {
        self.slots@.len() as int
    }

    /// Whether `i` is an arena index.
    pub open spec fn in_bounds(self, i: int) -> bool {
        0 <= i < self.slots@.len()
    }

    /// Whether slot `i` holds a live entity.
    pub open spec fn live(self, i: int) -> bool {
        live_at(self.slots@, i)
    }

    /// Whether slot `i` holds the live entity being dragged.
    pub open spec fn is_dragged(self, i: int) -> bool {
        dragged_at(self.slots@, i)
    }

    /// Whether slot `i` holds a live, hovered entity.
    pub open spec fn is_hovered(self, i: int) -> bool {
        hovered_at(self.slots@, i)
    }

    /// The structural invariant of the arena: every entity well-formed, at
    /// most one entity dragged, and no entity both dragged and hovered.
    pub open spec fn wf(self) -> bool {
        &&& forall|i: int| 0 <= i < self.slots@.len() ==> entity_ok(#[trigger] self.slots@[i])
        &&& forall|i: int, j: int| self.is_dragged(i) && self.is_dragged(j) ==> i == j
        &&& forall|i: int|
            0 <= i < self.slots@.len() ==> !((#[trigger] self.slots@[i]).dragged
                && self.slots@[i].hovered)
    }

    /// An empty world.
    pub fn new() -> (w: World)
        ensures
            w.wf(),
            w.num_slots() == 0,
            w.texts@.len() == 0,
    {
        World { slots: Vec::new(), texts: Vec::new() }
    }

    /// Materializes a slime of the given color and size at `pos`: radius
    /// derived from the size, flags clear, at rest, with one text overlay
    /// shadowing it. Returns the new entity's handle.
    pub fn spawn_slime(&mut self, color: SlimeColor, size: u32, pos: Vec2) -> (id: usize)
        requires
            old(self).wf(),
            SLIME_SIZE_MIN <= size <= SLIME_SIZE_MAX,
        ensures
            final(self).wf(),
            id == old(self).num_slots(),
            final(self).slots@ == old(self).slots@.push(spawned_slime(color, size, pos)),
            final(self).texts@ == old(self).texts@.push(
                Some(TextOverlay { owner: id, above: true }),
            ),
    {
        let id = self.slots.len();
        let radius = (1 + size) * SLIME_RADIUS;
        self.slots.push(
            Entity {
                kind: EntityKind::Slime(SlimeData { color, size }),
                pos,
                vel: Vec2 { x: 0, y: 0 },
                radius,
                alive: true,
                dragged: false,
                hovered: false,
                collisions_on: true,
            },
        );
        self.texts.push(Some(TextOverlay { owner: id, above: true }));
        proof {
            lemma_wf_after_spawn(*old(self), *self, spawned_slime(color, size, pos));
        }
        id
    }

    /// Materializes a spider of the given level, weakness and speed at
    /// `pos`: radius derived from the level, walking left at `speed`, with
    /// its two text overlays. Returns the new entity's handle.
    pub fn spawn_spider(&mut self, level: u32, weakness: SlimeColor, speed: i32, pos: Vec2) -> (id:
        usize)
        requires
            old(self).wf(),
            SPIDER_LEVEL_MIN <= level <= SPIDER_LEVEL_MAX,
            speed >= 0,
        ensures
            final(self).wf(),
            id == old(self).num_slots(),
            final(self).slots@ == old(self).slots@.push(spawned_spider(level, weakness, speed, pos)),
            final(self).texts@ == old(self).texts@.push(Some(TextOverlay { owner: id, above: true }))
                .push(Some(TextOverlay { owner: id, above: false })),
    {
        let id = self.slots.len();
        let radius = (1 + level) * SPIDER_RADIUS;
        self.slots.push(
            Entity {
                kind: EntityKind::Spider(SpiderData { level, weakness, speed }),
                pos,
                vel: Vec2 { x: -speed, y: 0 },
                radius,
                alive: true,
                dragged: false,
                hovered: false,
                collisions_on: true,
            },
        );
        self.texts.push(Some(TextOverlay { owner: id, above: true }));
        self.texts.push(Some(TextOverlay { owner: id, above: false }));
        proof {
            lemma_wf_after_spawn(*old(self), *self, spawned_spider(level, weakness, speed, pos));
        }
        id
    }

    /// Kills the entity in slot `id`, clearing its interaction flags; a
    /// handle that is out of range is ignored. Stale overlays are swept
    /// separately by `cleanup_stale_texts`.
    pub fn despawn(&mut self, id: usize)
        requires
            old(self).wf(),
        ensures
            final(self).wf(),
            final(self).num_slots() == old(self).num_slots(),
            final(self).texts@ == old(self).texts@,
            forall|i: int|
                0 <= i < old(self).num_slots() && i != id ==> final(self).slots@[i] == old(
                    self,
                ).slots@[i],
            old(self).in_bounds(id as int) ==> final(self).slots@[id as int] == (Entity {
                alive: false,
                dragged: false,
                hovered: false,
                ..old(self).slots@[id as int]
            }),
            !old(self).in_bounds(id as int) ==> final(self).slots@ == old(self).slots@,
    {
        if id < self.slots.len() {
            let e = self.slots[id];
            self.slots[id] = Entity { alive: false, dragged: false, hovered: false, ..e };
            proof {
                assert forall|i: int, j: int|
                    self.is_dragged(i) && self.is_dragged(j) implies i == j by {
                    assert(old(self).is_dragged(i) && old(self).is_dragged(j));
                }
            }
        }
    }

    /// Sets the position of the entity in slot `id`; the collaborator that
    /// integrates physics reports positions back through this. A handle
    /// that is out of range is ignored.
    pub fn set_position(&mut self, id: usize, pos: Vec2)
        requires
            old(self).wf(),
        ensures
            final(self).wf(),
            final(self).num_slots() == old(self).num_slots(),
            final(self).texts@ == old(self).texts@,
            forall|i: int|
                0 <= i < old(self).num_slots() && i != id ==> final(self).slots@[i] == old(
                    self,
                ).slots@[i],
            old(self).in_bounds(id as int) ==> final(self).slots@[id as int] == (Entity {
                pos,
                ..old(self).slots@[id as int]
            }),
            !old(self).in_bounds(id as int) ==> final(self).slots@ == old(self).slots@,
    {
        if id < self.slots.len() {
            let e = self.slots[id];
            self.slots[id] = Entity { pos, ..e };
            proof {
                assert forall|i: int, j: int|
                    self.is_dragged(i) && self.is_dragged(j) implies i == j by {
                    assert(old(self).is_dragged(i) && old(self).is_dragged(j));
                }
            }
        }
    }

    /// Brings every entity to rest.
    pub fn zero_velocities(&mut self)
        requires
            old(self).wf(),
        ensures
            final(self).wf(),
            final(self).num_slots() == old(self).num_slots(),
            final(self).texts@ == old(self).texts@,
            forall|i: int|
                0 <= i < old(self).num_slots() ==> final(self).slots@[i] == (Entity {
                    vel: Vec2 { x: 0, y: 0 },
                    ..old(self).slots@[i]
                }),
    {
        let ghost w0 = *self;
        let n = self.slots.len();
        let mut k: usize = 0;
        while k < n
            invariant
                n == self.slots@.len(),
                k <= n,
                self.texts@ == w0.texts@,
                w0.slots@.len() == n,
                forall|i: int|
                    0 <= i < k ==> self.slots@[i] == (Entity {
                        vel: Vec2 { x: 0, y: 0 },
                        ..w0.slots@[i]
                    }),
                forall|i: int| k <= i < n ==> self.slots@[i] == w0.slots@[i],
            decreases n - k,
        {
            let e = self.slots[k];
            self.slots[k] = Entity { vel: Vec2 { x: 0, y: 0 }, ..e };
            k += 1;
        }
        proof {
            lemma_wf_fieldwise(w0, *self);
        }
    }

    /// Clears every hover flag.
    pub fn clear_hover(&mut self)
        requires
            old(self).wf(),
        ensures
            final(self).wf(),
            final(self).num_slots() == old(self).num_slots(),
            final(self).texts@ == old(self).texts@,
            forall|i: int|
                0 <= i < old(self).num_slots() ==> final(self).slots@[i] == (Entity {
                    hovered: false,
                    ..old(self).slots@[i]
                }),
    {
        let ghost w0 = *self;
        let n = self.slots.len();
        let mut k: usize = 0;
        while k < n
            invariant
                n == self.slots@.len(),
                k <= n,
                self.texts@ == w0.texts@,
                w0.slots@.len() == n,
                forall|i: int|
                    0 <= i < k ==> self.slots@[i] == (Entity { hovered: false, ..w0.slots@[i] }),
                forall|i: int| k <= i < n ==> self.slots@[i] == w0.slots@[i],
            decreases n - k,
        {
            let e = self.slots[k];
            self.slots[k] = Entity { hovered: false, ..e };
            k += 1;
        }
        proof {
            lemma_wf_fieldwise(w0, *self);
        }
    }

    /// Kills every entity at once, as when the field is cleared on the way
    /// back into a fresh game.
    pub fn clear_entities(&mut self)
        requires
            old(self).wf(),
        ensures
            final(self).wf(),
            final(self).num_slots() == old(self).num_slots(),
            final(self).texts@ == old(self).texts@,
            forall|i: int|
                0 <= i < old(self).num_slots() ==> final(self).slots@[i] == (Entity {
                    alive: false,
                    dragged: false,
                    hovered: false,
                    ..old(self).slots@[i]
                }),
            forall|i: int| !final(self).live(i),
    {
        let ghost w0 = *self;
        let n = self.slots.len();
        let mut k: usize = 0;
        while k < n
            invariant
                n == self.slots@.len(),
                k <= n,
                self.texts@ == w0.texts@,
                w0.slots@.len() == n,
                forall|i: int|
                    0 <= i < k ==> self.slots@[i] == (Entity {
                        alive: false,
                        dragged: false,
                        hovered: false,
                        ..w0.slots@[i]
                    }),
                forall|i: int| k <= i < n ==> self.slots@[i] == w0.slots@[i],
            decreases n - k,
        {
            let e = self.slots[k];
            self.slots[k] = Entity { alive: false, dragged: false, hovered: false, ..e };
            k += 1;
        }
        proof {
            lemma_wf_fieldwise(w0, *self);
        }
    }

    /// Drops every text overlay, as when transient labels are removed on
    /// entering the game-over phase.
    pub fn clear_texts(&mut self)
        requires
            old(self).wf(),
        ensures
            final(self).wf(),
            final(self).slots@ == old(self).slots@,
            final(self).texts@.len() == old(self).texts@.len(),
            forall|i: int| 0 <= i < final(self).texts@.len() ==> final(self).texts@[i] is None,
    {
        let n = self.texts.len();
        let mut k: usize = 0;
        while k < n
            invariant
                n == self.texts@.len(),
                k <= n,
                self.slots@ == old(self).slots@,
                forall|i: int| 0 <= i < k ==> self.texts@[i] is None,
            decreases n - k,
        {
            self.texts[k] = None;
            k += 1;
        }
        proof {
            lemma_wf_same_slots(*old(self), *self);
        }
    }

    /// Validates every text overlay's back-reference and drops those whose
    /// owner is no longer alive.
    pub fn cleanup_stale_texts(&mut self)
        requires
            old(self).wf(),
        ensures
            final(self).wf(),
            final(self).slots@ == old(self).slots@,
            final(self).texts@ == cleaned_texts(old(self).slots@, old(self).texts@),
    {
        let ghost w0 = *self;
        let n = self.texts.len();
        let mut k: usize = 0;
        while k < n
            invariant
                n == self.texts@.len(),
                k <= n,
                self.slots@ == w0.slots@,
                forall|i: int|
                    0 <= i < k ==> self.texts@[i] == (
                    if w0.texts@[i] matches Some(t) && w0.live(t.owner as int) {
                        w0.texts@[i]
                    } else {
                        None::<TextOverlay>
                    }),
                forall|i: int| k <= i < n ==> self.texts@[i] == w0.texts@[i],
            decreases n - k,
        {
            let keep = match &self.texts[k] {
                Some(t) => t.owner < self.slots.len() && self.slots[t.owner].alive,
                None => false,
            };
            if !keep {
                self.texts[k] = None;
            }
            k += 1;
        }
        proof {
            lemma_wf_same_slots(w0, *self);
            let ct = cleaned_texts(w0.slots@, w0.texts@);
            assert forall|i: int| 0 <= i < self.texts@.len() implies self.texts@[i] == ct[i] by {}
            assert(self.texts@ =~= ct);
        }
    }

    /// Number of arena slots (live and dead).
    pub fn slot_count(&self) -> (n: usize)
        ensures
            n == self.num_slots(),
    {
        self.slots.len()
    }

    /// A copy of the entity in slot `id`, if the handle is in range.
    pub fn get(&self, id: usize) -> (r: Option<Entity>)
        ensures
            r == (if self.in_bounds(id as int) {
                Some(self.slots@[id as int])
            } else {
                None::<Entity>
            }),
    {
        if id < self.slots.len() {
            Some(self.slots[id])
        } else {
            None
        }
    }
}

/// The entity a slime spawn materializes into.
pub open spec fn spawned_slime(color: SlimeColor, size: u32, pos: Vec2) -> Entity {
    Entity {
        kind: EntityKind::Slime(SlimeData { color, size }),
        pos,
        vel: Vec2 { x: 0, y: 0 },
        radius: slime_radius_spec(size) as u32,
        alive: true,
        dragged: false,
        hovered: false,
        collisions_on: true,
    }
}

/// The entity a spider spawn materializes into.
pub open spec fn spawned_spider(level: u32, weakness: SlimeColor, speed: i32, pos: Vec2) -> Entity {
    Entity {
        kind: EntityKind::Spider(SpiderData { level, weakness, speed }),
        pos,
        vel: Vec2 { x: ((-(speed as int)) as i32), y: 0 },
        radius: spider_radius_spec(level) as u32,
        alive: true,
        dragged: false,
        hovered: false,
        collisions_on: true,
    }
}

/// At most one entity is dragged at a time: in a well-formed arena — and
/// every operation of this library keeps the arena well-formed, so this
/// holds after any sequence of press and release events — two dragged
/// slots are the same slot.
pub proof fn lemma_single_drag(w: World, i: int, j: int)
    requires
        w.wf(),
        w.is_dragged(i),
        w.is_dragged(j),
    ensures
        i == j,
{
}

/// No entity is both dragged and hovered at once in a well-formed arena.
pub proof fn lemma_drag_hover_exclusive(w: World, i: int)
    requires
        w.wf(),
    ensures
        !(w.is_dragged(i) && w.is_hovered(i)),
{
}

/// The arena invariant reads the entity slots alone, so it survives any
/// change to the text overlays.
proof fn lemma_wf_same_slots(w0: World, w1: World)
    requires
        w0.wf(),
        w1.slots@ == w0.slots@,
    ensures
        w1.wf(),
{
    assert forall|i: int, j: int| w1.is_dragged(i) && w1.is_dragged(j) implies i == j by {
        assert(w0.is_dragged(i) && w0.is_dragged(j));
    }
}

/// Appending a well-formed, flag-free entity preserves the arena invariant.
proof fn lemma_wf_after_spawn(w0: World, w1: World, e: Entity)
    requires
        w0.wf(),
        entity_ok(e),
        !e.dragged,
        !e.hovered,
        w1.slots@ == w0.slots@.push(e),
    ensures
        w1.wf(),
{
    assert forall|i: int| 0 <= i < w1.slots@.len() implies entity_ok(#[trigger] w1.slots@[i]) by {
        if i < w0.slots@.len() {
            assert(w1.slots@[i] == w0.slots@[i]);
        }
    }
    assert forall|i: int, j: int| w1.is_dragged(i) && w1.is_dragged(j) implies i == j by {
        assert(w0.is_dragged(i) && w0.is_dragged(j));
    }
    assert forall|i: int|
        0 <= i < w1.slots@.len() implies !((#[trigger] w1.slots@[i]).dragged
        && w1.slots@[i].hovered) by {
        if i < w0.slots@.len() {
            assert(w1.slots@[i] == w0.slots@[i]);
        }
    }
}

/// A per-slot rewrite that keeps each entity's kind and radius, never sets
/// a flag, and never revives a dead slot preserves the arena invariant.
proof fn lemma_wf_fieldwise(w0: World, w1: World)
    requires
        w0.wf(),
        w1.slots@.len() == w0.slots@.len(),
        forall|i: int|
            0 <= i < w1.slots@.len() ==> {
                let e0 = w0.slots@[i];
                let e1 = #[trigger] w1.slots@[i];
                e1.kind == e0.kind && e1.radius == e0.radius && (e1.alive ==> e0.alive) && (
                e1.dragged ==> e0.dragged) && (e1.hovered ==> e0.hovered) && (e1.alive
                    == e0.alive || (!e1.dragged && !e1.hovered))
            },
    ensures
        w1.wf(),
{
    assert forall|i: int| 0 <= i < w1.slots@.len() implies entity_ok(#[trigger] w1.slots@[i]) by {
        assert(entity_ok(w0.slots@[i]));
    }
    assert forall|i: int, j: int| w1.is_dragged(i) && w1.is_dragged(j) implies i == j by {
        assert(w0.is_dragged(i) && w0.is_dragged(j));
    }
    assert forall|i: int|
        0 <= i < w1.slots@.len() implies !((#[trigger] w1.slots@[i]).dragged
        && w1.slots@[i].hovered) by {
        assert(!(w0.slots@[i].dragged && w0.slots@[i].hovered));
    }
}

} // verus!
