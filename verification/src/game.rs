//! The top-level game state machine: phase control (pre-game, in-game,
//! game-over), the per-tick pipeline that drives the interaction tracker,
//! the resolver and the directors in a fixed order, and the boundary
//! condition that ends a game. `in_game_step` writes the whole pipeline
//! down as a composition of the per-stage functions, existentially
//! quantified only over the tick's random draws.

use vstd::prelude::*;
use crate::color::SlimeColor;
use crate::color::all_colors;
use crate::geom::{Vec2, clamp_coord, GARDEN_X, WINDOW_WIDTH, WINDOW_HEIGHT};
use crate::interact::{CombineRequest, hover_slots, drag_start_slots, drag_update_slots,
    drag_end_slots, drag_end_req};
use crate::resolve::{Participant, participant_at, participant_of, lemma_participant_ok,
    lemma_spawn_sizes_valid, resolve_combine, spawns_of, base_destroyed_by,
    addition_destroyed_by, score_delta_of, spider_killed};
use crate::rng::random_in_range;
use crate::wave::{SpawnTimer, SPIDER_SPAWN_PERIOD_MS, SPIDER_SPEED, next_spider_request};
use crate::world::{World, Entity, EntityKind, SlimeData, SpiderData, TextOverlay, spawned_slime,
    spawned_spider, spider_radius_spec, cleaned_texts, SPIDER_LEVEL_MIN, SPIDER_LEVEL_MAX,
    live_at};

verus! {

/// Horizontal half-extent of the box the initial slimes are scattered in
/// (nine tenths of the field's half-width).
pub const INITIAL_X_BOUND: i32 = 576;

/// Vertical half-extent of the box the initial slimes are scattered in
/// (nine tenths of the field's half-height).
pub const INITIAL_Y_BOUND: i32 = 324;

/// Number of slimes a fresh game starts with: two of each color.
pub const INITIAL_SLIME_COUNT: usize = 16;

/// Top-level phase. A game waits in `PreGame` for the first press, plays
/// in `InGame`, and loops between `GameOver` and `InGame` from then on.
#[derive(Clone, Copy, Debug, PartialEq, Eq, Structural)]
pub enum Phase {
    PreGame,
    InGame,
    GameOver,
}

/// The pointer facts one tick consumes: the pointer's world position (or
/// absence), and the press/release edges observed since the last tick.
#[derive(Clone, Copy, Debug, PartialEq, Eq, Structural)]
pub struct PointerState {
    pub position: Option<Vec2>,
    pub pressed: bool,
    pub released: bool,
}

/// The whole game: the entity arena, the kill count, the wave timer and
/// the current phase.
pub struct Game {
    pub world: World,
    pub score: u32,
    pub timer: SpawnTimer,
    pub phase: Phase,
}

/// Whether some live spider stands past the garden boundary.
pub open spec fn crossed_slots(s: Seq<Entity>) -> bool {
    exists|i: int| live_at(s, i) && (#[trigger] s[i]).kind is Spider && s[i].pos.x < GARDEN_X
}

/// `crossed_slots`, read off a world's slot sequence.
pub open spec fn spider_crossed(w: World) -> bool {
    crossed_slots(w.slots@)
}

/// The phase after one boundary evaluation: a crossing during in-game
/// ends the game; every other phase ignores crossings.
pub open spec fn phase_after_crossing(p: Phase, crossed: bool) -> Phase {
    if p is InGame && crossed {
        Phase::GameOver
    } else {
        p
    }
}

/// Crossing the boundary moves the phase from in-game to game-over
/// exactly once: a crossing during in-game ends the game, evaluating the
/// boundary again afterwards — crossed or not — leaves game-over in
/// place, and no phase but in-game reacts to a crossing at all.
pub proof fn lemma_crossing_transitions_once(p: Phase, c1: bool, c2: bool)
    ensures
        p is InGame && c1 ==> phase_after_crossing(p, c1) is GameOver,
        p is InGame && c1 ==> phase_after_crossing(phase_after_crossing(p, c1), c2)
            == phase_after_crossing(p, c1),
        !(p is InGame) ==> phase_after_crossing(p, c1) == p,
{
}

/// One of the sixteen slimes a fresh game starts with: a freshly spawned
/// size-one slime of the `k`-th palette color (the palette cycling
/// twice), somewhere within the spawn margin of the play field.
pub open spec fn initial_slime_ok(e: Entity, k: int) -> bool {
    &&& e.kind matches EntityKind::Slime(s) && s.size == 1 && s.color.index_spec() == k % 8 && e
        == spawned_slime(s.color, 1, e.pos)
    &&& -INITIAL_X_BOUND <= e.pos.x < INITIAL_X_BOUND
    &&& -INITIAL_Y_BOUND <= e.pos.y < INITIAL_Y_BOUND
}

/// A killed arena slot: dead, with its interaction flags cleared and its
/// last game data left behind.
pub open spec fn killed(e: Entity) -> Entity {
    Entity { alive: false, dragged: false, hovered: false, ..e }
}

/// The score counter after adding `v`, saturating at the counter's top.
pub open spec fn clamped_score(v: int) -> int {
    if v > u32::MAX {
        u32::MAX as int
    } else {
        v
    }
}

/// Whether `p` lies within the random spawn offset box of `loc`: each
/// coordinate between `loc` and `loc + 19`, clamped to the coordinate
/// range.
pub open spec fn near_location(loc: Vec2, p: Vec2) -> bool {
    &&& clamp_coord(loc.x as int) <= p.x as int <= clamp_coord(loc.x + 19)
    &&& clamp_coord(loc.y as int) <= p.y as int <= clamp_coord(loc.y + 19)
}

/// Whether `e` is exactly the slime `s` freshly spawned somewhere within
/// the offset box of `loc`.
pub open spec fn spawn_matches(e: Entity, s: SlimeData, loc: Vec2) -> bool {
    e == spawned_slime(s.color, s.size, e.pos) && near_location(loc, e.pos)
}

/// How one combine request transforms the slot sequence, the text
/// overlays and the score, with `rc` naming the random color drawn for
/// it: the request's handles are resolved against the pre-state, the
/// outcome's destroy directives and score delta are applied, the spawned
/// slimes are appended near the request's location, and each spawned
/// slime brings one text overlay naming it. A request naming one entity
/// twice is discarded, as are stale handles (through `participant_at`
/// resolving them to nothing).
pub open spec fn combine_applied_v(
    s0: Seq<Entity>,
    t0: Seq<Option<TextOverlay>>,
    score0: int,
    s1: Seq<Entity>,
    t1: Seq<Option<TextOverlay>>,
    score1: int,
    q: CombineRequest,
    rc: SlimeColor,
) -> bool {
    let base = participant_at(s0, q.base as int);
    let addition = participant_at(s0, q.addition as int);
    let spawns = spawns_of(base, addition, rc);
    let n0 = s0.len() as int;
    if q.base == q.addition {
        s1 == s0 && t1 == t0 && score1 == score0
    } else {
        &&& score1 == clamped_score(score0 + score_delta_of(base, addition))
        &&& s1.len() == n0 + spawns.len()
        &&& forall|i: int|
            0 <= i < n0 && i != q.base as int && i != q.addition as int ==> #[trigger] s1[i]
                == s0[i]
        &&& (q.base as int) < n0 ==> s1[q.base as int] == (if base_destroyed_by(base, addition) {
            killed(s0[q.base as int])
        } else {
            s0[q.base as int]
        })
        &&& (q.addition as int) < n0 ==> s1[q.addition as int] == (if addition_destroyed_by(
            base,
            addition,
        ) {
            killed(s0[q.addition as int])
        } else {
            s0[q.addition as int]
        })
        &&& forall|j: int|
            0 <= j < spawns.len() ==> spawn_matches(#[trigger] s1[n0 + j], spawns[j], q.location)
        &&& t1.len() == t0.len() + spawns.len()
        &&& forall|i: int| 0 <= i < t0.len() ==> #[trigger] t1[i] == t0[i]
        &&& forall|j: int|
            0 <= j < spawns.len() ==> #[trigger] t1[t0.len() + j] == Some(
                TextOverlay { owner: (n0 + j) as usize, above: true },
            )
    }
}

/// `combine_applied_v` on a whole game state: the phase and the wave
/// timer stand still while the arena, overlays and score take the
/// request's outcome.
pub open spec fn combine_applied(g0: Game, g1: Game, q: CombineRequest, rc: SlimeColor) -> bool {
    &&& g1.phase == g0.phase
    &&& g1.timer == g0.timer
    &&& combine_applied_v(
        g0.world.slots@,
        g0.world.texts@,
        g0.score as int,
        g1.world.slots@,
        g1.world.texts@,
        g1.score as int,
        q,
        rc,
    )
}

/// The kill counter never decreases across a combine request.
pub proof fn lemma_combine_score_monotone(g0: Game, g1: Game, q: CombineRequest, rc: SlimeColor)
    requires
        combine_applied(g0, g1, q, rc),
    ensures
        g0.score <= g1.score,
{
    let base = participant_at(g0.world.slots@, q.base as int);
    let addition = participant_at(g0.world.slots@, q.addition as int);
    assert(score_delta_of(base, addition) >= 0);
}

/// Dropping a slime onto a spider raises the kill counter by exactly one
/// — saturating only at the counter's top — exactly when the spider's
/// level is covered by the slime's size and its weakness matches the
/// slime's color; a failed attack leaves both the counter and the
/// spider's slot untouched.
pub proof fn lemma_combat_outcome(
    g0: Game,
    g1: Game,
    q: CombineRequest,
    rc: SlimeColor,
    sp: SpiderData,
    sl: SlimeData,
)
    requires
        combine_applied(g0, g1, q, rc),
        q.base != q.addition,
        participant_of(g0.world, q.base as int) == Participant::SpiderOf(sp),
        participant_of(g0.world, q.addition as int) == Participant::SlimeOf(sl),
    ensures
        g0.score <= g1.score,
        g0.score < u32::MAX ==> (g1.score == g0.score + 1 <==> spider_killed(sp, sl)),
        !spider_killed(sp, sl) ==> g1.score == g0.score && g1.world.slots@[q.base as int]
            == g0.world.slots@[q.base as int],
{
    lemma_combine_score_monotone(g0, g1, q, rc);
}

/// The spider the wave director materializes when its timer elapses, for
/// one concrete outcome of its random draws: a level in `[1, 4]`, some
/// weakness color, the fixed speed, entering just past the right edge at
/// a height within the middle third of the field, with its two text
/// overlays appended behind it.
pub open spec fn wave_spawn_witness(
    s0: Seq<Entity>,
    t0: Seq<Option<TextOverlay>>,
    s1: Seq<Entity>,
    t1: Seq<Option<TextOverlay>>,
    level: u32,
    weakness: SlimeColor,
    y: i32,
) -> bool {
    &&& SPIDER_LEVEL_MIN <= level <= SPIDER_LEVEL_MAX
    &&& -(WINDOW_HEIGHT as int / 6) <= y < WINDOW_HEIGHT as int / 6
    &&& s1 == s0.push(
        spawned_spider(
            level,
            weakness,
            SPIDER_SPEED,
            Vec2 { x: ((WINDOW_WIDTH as int / 2 + spider_radius_spec(level)) as i32), y },
        ),
    )
    &&& t1 == t0.push(Some(TextOverlay { owner: s0.len() as usize, above: true })).push(
        Some(TextOverlay { owner: s0.len() as usize, above: false }),
    )
}

/// Exactly one spider, of some random level, weakness and entry height,
/// is appended by an elapsed wave timer.
pub open spec fn wave_spawned(
    s0: Seq<Entity>,
    t0: Seq<Option<TextOverlay>>,
    s1: Seq<Entity>,
    t1: Seq<Option<TextOverlay>>,
) -> bool {
    exists|level: u32, weakness: SlimeColor, y: i32|
        wave_spawn_witness(s0, t0, s1, t1, level, weakness, y)
}

/// The slot sequence after the game-over entry actions: every entity at
/// rest with its hover highlight cleared, everything else in place.
pub open spec fn game_over_slots(s: Seq<Entity>) -> Seq<Entity> {
    Seq::new(s.len(), |i: int| Entity { vel: Vec2 { x: 0, y: 0 }, hovered: false, ..s[i] })
}

/// One whole in-game tick, for fixed outcomes of the tick's random draws
/// (the merge color `rc`, the combine offsets absorbed by
/// `combine_applied_v`, and the wave spider's draws): the deterministic
/// interaction pipeline runs first — hover recomputation, drag start on a
/// press, drag snap, drag end on a release — then the emitted combine
/// request is resolved, stale overlays are swept, the wave timer advances
/// and an elapsed period appends one spider, and last the boundary is
/// evaluated, a crossing triggering the game-over entry actions.
pub open spec fn in_game_mid(
    g0: Game,
    g1: Game,
    pointer: PointerState,
    delta_ms: u32,
    rc: SlimeColor,
    s5: Seq<Entity>,
    t5: Seq<Option<TextOverlay>>,
    score5: int,
    s7: Seq<Entity>,
    t7: Seq<Option<TextOverlay>>,
) -> bool {
    let s1 = hover_slots(g0.world.slots@, pointer.position);
    let s2 = if pointer.pressed && pointer.position is Some {
        drag_start_slots(s1, pointer.position->0)
    } else {
        s1
    };
    let s3 = drag_update_slots(s2, pointer.position);
    let req = if pointer.released {
        drag_end_req(s3, pointer.position)
    } else {
        None::<CombineRequest>
    };
    let s4 = if pointer.released {
        drag_end_slots(s3)
    } else {
        s3
    };
    let t4 = g0.world.texts@;
    let fired = g0.timer.elapsed_ms + delta_ms >= g0.timer.period_ms;
    let t6 = cleaned_texts(s5, t5);
    &&& (match req {
        Some(q) => combine_applied_v(s4, t4, g0.score as int, s5, t5, score5, q, rc),
        None => s5 == s4 && t5 == t4 && score5 == g0.score as int,
    })
    &&& (if fired {
        wave_spawned(s5, t6, s7, t7)
    } else {
        s7 == s5 && t7 == t6
    })
    &&& g1.score as int == score5
    &&& (if crossed_slots(s7) {
        g1.world.slots@ == game_over_slots(s7) && g1.world.texts@.len() == t7.len() && (forall|
            i: int,
        |
            0 <= i < t7.len() ==> g1.world.texts@[i] is None)
    } else {
        g1.world.slots@ == s7 && g1.world.texts@ == t7
    })
}

/// One whole in-game tick: the wave timer keeps its period and carries
/// the tick's delta with the remainder kept, the phase follows the
/// boundary condition on the final field, and the field itself is the
/// pipeline's composition of `in_game_mid` for some outcome of the
/// tick's random draws.
pub open spec fn in_game_step(g0: Game, g1: Game, pointer: PointerState, delta_ms: u32) -> bool {
    &&& g1.timer.period_ms == g0.timer.period_ms
    &&& g1.timer.elapsed_ms as int == (g0.timer.elapsed_ms + delta_ms) % (
    g0.timer.period_ms as int)
    &&& g1.phase == phase_after_crossing(Phase::InGame, crossed_slots(g1.world.slots@))
    &&& exists|
        rc: SlimeColor,
        s5: Seq<Entity>,
        t5: Seq<Option<TextOverlay>>,
        score5: int,
        s7: Seq<Entity>,
        t7: Seq<Option<TextOverlay>>,
    | in_game_mid(g0, g1, pointer, delta_ms, rc, s5, t5, score5, s7, t7)
}

/// A rewrite that moves no entity in or out of the arena and changes no
/// entity's kind, liveness or position leaves the boundary condition as
/// it was.
proof fn lemma_crossed_same(s0: Seq<Entity>, s1: Seq<Entity>)
    requires
        s1.len() == s0.len(),
        forall|i: int|
            0 <= i < s0.len() ==> (#[trigger] s1[i]).kind == s0[i].kind && s1[i].alive
                == s0[i].alive && s1[i].pos == s0[i].pos,
    ensures
        crossed_slots(s1) == crossed_slots(s0),
{
    if crossed_slots(s0) {
        let i = choose|i: int|
            live_at(s0, i) && (#[trigger] s0[i]).kind is Spider && s0[i].pos.x < GARDEN_X;
        assert(live_at(s1, i) && s1[i].kind is Spider && s1[i].pos.x < GARDEN_X);
    }
    if crossed_slots(s1) {
        let i = choose|i: int|
            live_at(s1, i) && (#[trigger] s1[i]).kind is Spider && s1[i].pos.x < GARDEN_X;
        assert(live_at(s0, i) && s0[i].kind is Spider && s0[i].pos.x < GARDEN_X);
    }
}

impl World {
    /// Whether some live spider has walked past the garden boundary.
    pub fn any_spider_crossed(&self) -> (b: bool)
        ensures
            b == spider_crossed(*self),
    {
        let n = self.slots.len();
        let mut k: usize = 0;
        while k < n
            invariant
                n == self.slots@.len(),
                k <= n,
                forall|i: int|
                    0 <= i < k ==> !(self.live(i) && (#[trigger] self.slots@[i]).kind is Spider
                        && self.slots@[i].pos.x < GARDEN_X),
            decreases n - k,
        {
            let e = self.slots[k];
            if e.alive {
                if let EntityKind::Spider(_) = e.kind {
                    if e.pos.x < GARDEN_X {
                        return true;
                    }
                }
            }
            k += 1;
        }
        false
    }
}

impl Game {
    /// The game's structural invariant: a well-formed arena and timer.
    pub open spec fn wf(self) -> bool {
        self.world.wf() && self.timer.wf()
    }

    /// A fresh game: empty field, zero score, the wave timer wound up,
    /// waiting in the pre-game phase for the first press.
    pub fn new() -> (g: Game)
        ensures
            g.wf(),
            g.phase is PreGame,
            g.score == 0,
            g.world.num_slots() == 0,
            g.world.texts@.len() == 0,
            g.timer.period_ms == SPIDER_SPAWN_PERIOD_MS,
            g.timer.elapsed_ms == 0,
    {
        Game {
            world: World::new(),
            score: 0,
            timer: SpawnTimer::new(SPIDER_SPAWN_PERIOD_MS),
            phase: Phase::PreGame,
        }
    }

    /// Entry actions of the in-game phase: reset the score, wind the wave
    /// timer up, and scatter two size-one slimes of every color across
    /// the field at random positions.
    fn enter_in_game(&mut self)
        requires
            old(self).wf(),
        ensures
            final(self).wf(),
            final(self).phase is InGame,
            final(self).score == 0,
            final(self).timer.period_ms == old(self).timer.period_ms,
            final(self).timer.elapsed_ms == 0,
            final(self).world.slots@.len() == old(self).world.slots@.len() + INITIAL_SLIME_COUNT,
            forall|i: int|
                0 <= i < old(self).world.slots@.len() ==> #[trigger] final(self).world.slots@[i]
                    == old(self).world.slots@[i],
            forall|k: int|
                0 <= k < INITIAL_SLIME_COUNT ==> initial_slime_ok(
                    #[trigger] final(self).world.slots@[old(self).world.slots@.len() + k],
                    k,
                ),
    {
        self.phase = Phase::InGame;
        self.score = 0;
        self.timer.reset();
        let colors = all_colors();
        let ghost w0 = self.world;
        let base = self.world.slot_count();
        let mut k: usize = 0;
        while k < INITIAL_SLIME_COUNT
            invariant
                self.wf(),
                self.phase is InGame,
                self.score == 0,
                self.timer.period_ms == old(self).timer.period_ms,
                self.timer.elapsed_ms == 0,
                w0 == old(self).world,
                base == w0.slots@.len(),
                k <= INITIAL_SLIME_COUNT,
                self.world.slots@.len() == base + k,
                colors@.len() == 8,
                forall|c: int| 0 <= c < 8 ==> (#[trigger] colors@[c]).index_spec() == c,
                forall|i: int| 0 <= i < base ==> #[trigger] self.world.slots@[i] == w0.slots@[i],
                forall|j: int|
                    0 <= j < k ==> initial_slime_ok(#[trigger] self.world.slots@[base + j], j),
            decreases INITIAL_SLIME_COUNT - k,
        {
            let color = colors[k % 8];
            let x = random_in_range(-INITIAL_X_BOUND, INITIAL_X_BOUND);
            let y = random_in_range(-INITIAL_Y_BOUND, INITIAL_Y_BOUND);
            self.world.spawn_slime(color, 1, Vec2 { x, y });
            k += 1;
        }
    }

    /// Entry actions of the game-over phase: everything comes to rest,
    /// hover highlights are cleared and the transient labels are removed;
    /// the field itself, and the score, stay on display.
    fn enter_game_over(&mut self)
        requires
            old(self).wf(),
        ensures
            final(self).wf(),
            final(self).phase is GameOver,
            final(self).score == old(self).score,
            final(self).timer == old(self).timer,
            final(self).world.slots@ == game_over_slots(old(self).world.slots@),
            final(self).world.texts@.len() == old(self).world.texts@.len(),
            forall|i: int|
                0 <= i < final(self).world.texts@.len() ==> final(self).world.texts@[i] is None,
    {
        self.phase = Phase::GameOver;
        self.world.zero_velocities();
        self.world.clear_hover();
        self.world.clear_texts();
        proof {
            let gs = game_over_slots(old(self).world.slots@);
            assert forall|i: int|
                0 <= i < self.world.slots@.len() implies self.world.slots@[i] == gs[i] by {}
            assert(self.world.slots@ =~= gs);
        }
    }

    /// Applies one combine request: reads both participants, resolves
    /// them, despawns what the outcome destroys, raises the score by the
    /// outcome's delta (saturating), and materializes the spawned slimes
    /// near the request's location, each at its own random offset and
    /// each with its text overlay.
    pub fn apply_combine(&mut self, q: CombineRequest)
        requires
            old(self).wf(),
        ensures
            final(self).wf(),
            exists|rc: SlimeColor| combine_applied(*old(self), *final(self), q, rc),
    {
        if q.base == q.addition {
            proof {
                assert(combine_applied(*old(self), *self, q, SlimeColor::Red));
            }
            return ;
        }
        let base = self.world.participant(q.base);
        let addition = self.world.participant(q.addition);
        proof {
            lemma_participant_ok(old(self).world, q.base as int);
            lemma_participant_ok(old(self).world, q.addition as int);
        }
        let rc = SlimeColor::from_index(random_in_range(0, 8) as u8);
        let r = resolve_combine(base, addition, rc);
        proof {
            assert(r.spawns@ == spawns_of(base, addition, rc));
            assert(r.destroy_base == base_destroyed_by(base, addition));
            assert(r.destroy_addition == addition_destroyed_by(base, addition));
            assert(r.score_delta as int == score_delta_of(base, addition));
            lemma_spawn_sizes_valid(base, addition, rc);
        }
        if r.destroy_base {
            self.world.despawn(q.base);
        }
        if r.destroy_addition {
            self.world.despawn(q.addition);
        }
        let delta = r.score_delta;
        self.score = if self.score > u32::MAX - delta {
            u32::MAX
        } else {
            self.score + delta
        };
        let ghost mid = *self;
        let spawn_count = r.spawns.len();
        let mut j: usize = 0;
        while j < spawn_count
            invariant
                self.wf(),
                spawn_count == r.spawns@.len(),
                j <= spawn_count,
                self.phase == mid.phase,
                self.timer == mid.timer,
                self.score == mid.score,
                forall|t: int|
                    0 <= t < r.spawns@.len() ==> crate::world::SLIME_SIZE_MIN <= (
                    #[trigger] r.spawns@[t]).size <= crate::world::SLIME_SIZE_MAX,
                self.world.slots@.len() == mid.world.slots@.len() + j,
                forall|i: int|
                    0 <= i < mid.world.slots@.len() ==> #[trigger] self.world.slots@[i]
                        == mid.world.slots@[i],
                forall|t: int|
                    0 <= t < j ==> spawn_matches(
                        #[trigger] self.world.slots@[mid.world.slots@.len() + t],
                        r.spawns@[t],
                        q.location,
                    ),
                self.world.texts@.len() == mid.world.texts@.len() + j,
                forall|i: int|
                    0 <= i < mid.world.texts@.len() ==> #[trigger] self.world.texts@[i]
                        == mid.world.texts@[i],
                forall|t: int|
                    0 <= t < j ==> #[trigger] self.world.texts@[mid.world.texts@.len() + t]
                        == Some(
                        TextOverlay { owner: (mid.world.slots@.len() + t) as usize, above: true },
                    ),
            decreases spawn_count - j,
        {
            let s = r.spawns[j];
            let dx = random_in_range(0, 20);
            let dy = random_in_range(0, 20);
            let pos = q.location.translated(dx, dy);
            self.world.spawn_slime(s.color, s.size, pos);
            j += 1;
        }
        proof {
            assert(combine_applied(*old(self), *self, q, rc));
        }
    }

    /// Runs one tick. In pre-game and game-over, a press (re)starts a
    /// game — leaving game-over first clears the field — and the fresh
    /// field holds two size-one slimes of every color. In-game, the
    /// pipeline runs in its fixed order — hover update, drag start, drag
    /// update, drag end with combine resolution, overlay cleanup, the
    /// wave timer with its spider spawn, and last the boundary check,
    /// whose crossing ends the game — exactly as `in_game_step` states.
    pub fn tick(&mut self, pointer: PointerState, delta_ms: u32)
        requires
            old(self).wf(),
        ensures
            final(self).wf(),
            old(self).phase is PreGame ==> final(self).phase == (if pointer.pressed {
                Phase::InGame
            } else {
                Phase::PreGame
            }),
            old(self).phase is GameOver ==> final(self).phase == (if pointer.pressed {
                Phase::InGame
            } else {
                Phase::GameOver
            }),
            old(self).phase is InGame ==> in_game_step(*old(self), *final(self), pointer, delta_ms),
            old(self).phase is InGame ==> final(self).phase == phase_after_crossing(
                Phase::InGame,
                spider_crossed(final(self).world),
            ),
            old(self).phase is PreGame && !pointer.pressed ==> *final(self) == *old(self),
            old(self).phase is GameOver && !pointer.pressed ==> *final(self) == *old(self),
            (old(self).phase is PreGame || old(self).phase is GameOver) && pointer.pressed ==> (
            final(self).score == 0 && final(self).timer.elapsed_ms == 0
                && final(self).world.slots@.len() == old(self).world.slots@.len()
                + INITIAL_SLIME_COUNT),
            (old(self).phase is PreGame || old(self).phase is GameOver) && pointer.pressed
                ==> forall|k: int|
                0 <= k < INITIAL_SLIME_COUNT ==> initial_slime_ok(
                    #[trigger] final(self).world.slots@[old(self).world.slots@.len() + k],
                    k,
                ),
            old(self).phase is GameOver && pointer.pressed ==> forall|i: int|
                0 <= i < old(self).world.slots@.len() ==> !final(self).world.live(i),
            old(self).phase is InGame ==> old(self).score <= final(self).score,
            old(self).phase is InGame && final(self).phase is GameOver ==> ((forall|i: int|
                0 <= i < final(self).world.texts@.len() ==> final(self).world.texts@[i] is None)
                && (forall|i: int|
                0 <= i < final(self).world.slots@.len()
                    ==> ((#[trigger] final(self).world.slots@[i]).vel == (Vec2 { x: 0, y: 0 })
                    && !final(self).world.slots@[i].hovered))),
    {
        match self.phase {
            Phase::PreGame => {
                if pointer.pressed {
                    self.enter_in_game();
                }
            },
            Phase::GameOver => {
                if pointer.pressed {
                    self.world.clear_entities();
                    self.enter_in_game();
                }
            },
            Phase::InGame => {
                self.world.update_hover(pointer.position);
                if pointer.pressed {
                    if let Some(p) = pointer.position {
                        self.world.drag_start(p);
                    }
                }
                self.world.drag_update(pointer.position);
                let mut req: Option<CombineRequest> = None;
                if pointer.released {
                    req = self.world.drag_end(pointer.position);
                }
                let ghost before_combine = *self;
                if let Some(q) = req {
                    self.apply_combine(q);
                }
                let ghost after_combine = *self;
                let ghost rc = if req is Some {
                    choose|c: SlimeColor| combine_applied(before_combine, after_combine, req->0, c)
                } else {
                    SlimeColor::Red
                };
                let ghost s5 = self.world.slots@;
                let ghost t5 = self.world.texts@;
                let ghost score5 = self.score as int;
                self.world.cleanup_stale_texts();
                let ghost t6 = self.world.texts@;
                let fired = self.timer.tick(delta_ms);
                if fired {
                    let r = next_spider_request();
                    self.world.spawn_spider(r.level, r.weakness, r.speed, r.position);
                    proof {
                        assert(wave_spawn_witness(
                            s5,
                            t6,
                            self.world.slots@,
                            self.world.texts@,
                            r.level,
                            r.weakness,
                            r.position.y,
                        ));
                        assert(wave_spawned(s5, t6, self.world.slots@, self.world.texts@));
                    }
                }
                let ghost s7 = self.world.slots@;
                let ghost t7 = self.world.texts@;
                if self.world.any_spider_crossed() {
                    self.enter_game_over();
                    proof {
                        lemma_crossed_same(s7, self.world.slots@);
                    }
                }
                proof {
                    if req is Some {
                        lemma_combine_score_monotone(before_combine, after_combine, req->0, rc);
                    }
                    assert(in_game_mid(
                        *old(self),
                        *self,
                        pointer,
                        delta_ms,
                        rc,
                        s5,
                        t5,
                        score5,
                        s7,
                        t7,
                    ));
                    assert(in_game_step(*old(self), *self, pointer, delta_ms));
                }
            },
        }
    }
}

} // verus!
