//! The combination resolver: a pure rule engine that turns a combine
//! request's two participants into spawn requests, destroy directives and
//! a score delta. Merging slimes sums their sizes, splitting on overflow;
//! dropping a slime onto a spider kills the spider exactly when the
//! spider's level is covered by the slime's size and its weakness matches
//! the slime's color, and always shatters the slime into two halves.

use vstd::prelude::*;
use crate::color::SlimeColor;
use crate::world::{SlimeData, SpiderData, SLIME_SIZE_MIN, SLIME_SIZE_MAX, SPIDER_LEVEL_MIN,
    SPIDER_LEVEL_MAX, World, Entity, EntityKind, entity_ok, live_at};

verus! {

/// What a combine-request handle resolved to at receipt time: slime data,
/// spider data, or nothing (the entity was already destroyed).
#[derive(Clone, Copy, Debug, PartialEq, Eq, Structural)]
pub enum Participant {
    SlimeOf(SlimeData),
    SpiderOf(SpiderData),
    Missing,
}

/// Range sanity of a participant's game data, as the arena invariant
/// guarantees it.
pub open spec fn participant_ok(p: Participant) -> bool {
    match p {
        Participant::SlimeOf(s) => SLIME_SIZE_MIN <= s.size <= SLIME_SIZE_MAX,
        Participant::SpiderOf(s) => SPIDER_LEVEL_MIN <= s.level <= SPIDER_LEVEL_MAX,
        Participant::Missing => true,
    }
}

/// The outcome of one combine request: slimes to materialize, which
/// participants to destroy, and how much the score grows.
pub struct Resolution {
    pub spawns: Vec<SlimeData>,
    pub destroy_base: bool,
    pub destroy_addition: bool,
    pub score_delta: u32,
}

/// Size of the overflow slime when a merge exceeds the maximum size:
/// the excess over the maximum, clamped to the valid size range.
pub open spec fn overflow_size(sum: int) -> int {
    if sum - SLIME_SIZE_MAX < SLIME_SIZE_MIN {
        SLIME_SIZE_MIN as int
    } else if sum - SLIME_SIZE_MAX > SLIME_SIZE_MAX {
        SLIME_SIZE_MAX as int
    } else {
        sum - SLIME_SIZE_MAX
    }
}

/// The slimes a slime-onto-slime merge spawns. Within the maximum size,
/// one slime of the summed size wearing the addition's color; above it,
/// four slimes: sizes two and three (the halves of the maximum), the
/// overflow, and a single size-one slime of a random color.
pub open spec fn merge_spawns(base: SlimeData, addition: SlimeData, random_color: SlimeColor) -> Seq<
    SlimeData,
> {
    let sum = base.size + addition.size;
    if sum > SLIME_SIZE_MAX {
        seq![
            SlimeData { color: addition.color, size: (SLIME_SIZE_MAX / 2) as u32 },
            SlimeData { color: addition.color, size: (SLIME_SIZE_MAX - SLIME_SIZE_MAX / 2) as u32 },
            SlimeData { color: addition.color, size: overflow_size(sum) as u32 },
            SlimeData { color: random_color, size: 1u32 },
        ]
    } else {
        seq![SlimeData { color: addition.color, size: sum as u32 }]
    }
}

/// The pieces a slime shatters into when dropped onto a spider: half its
/// size rounded down and the remainder, each kept only if positive, in
/// that order, wearing the slime's color.
pub open spec fn split_spawns(s: SlimeData) -> Seq<SlimeData> {
    let lo = s.size as int / 2;
    let hi = s.size - lo;
    (if lo > 0 {
        seq![SlimeData { color: s.color, size: lo as u32 }]
    } else {
        Seq::<SlimeData>::empty()
    }) + (if hi > 0 {
        seq![SlimeData { color: s.color, size: hi as u32 }]
    } else {
        Seq::<SlimeData>::empty()
    })
}

/// Whether a slime dropped onto a spider kills it: the spider's level is
/// within the slime's size and the slime wears the spider's weakness.
pub open spec fn spider_killed(sp: SpiderData, sl: SlimeData) -> bool {
    sp.level <= sl.size && sp.weakness == sl.color
}

/// What a combine-request handle stands for at receipt time: the live
/// entity's game data, or nothing for a stale or out-of-range handle.
pub open spec fn participant_at(s: Seq<Entity>, i: int) -> Participant {
    if live_at(s, i) {
        match s[i].kind {
            EntityKind::Slime(d) => Participant::SlimeOf(d),
            EntityKind::Spider(d) => Participant::SpiderOf(d),
        }
    } else {
        Participant::Missing
    }
}

/// `participant_at`, read off a world's slot sequence.
pub open spec fn participant_of(w: World, i: int) -> Participant {
    participant_at(w.slots@, i)
}

impl World {
    /// Resolves a combine-request handle to the participant it stands for.
    pub fn participant(&self, id: usize) -> (p: Participant)
        ensures
            p == participant_of(*self, id as int),
    {
        if id < self.slots.len() {
            let e = self.slots[id];
            if e.alive {
                match e.kind {
                    EntityKind::Slime(s) => Participant::SlimeOf(s),
                    EntityKind::Spider(s) => Participant::SpiderOf(s),
                }
            } else {
                Participant::Missing
            }
        } else {
            Participant::Missing
        }
    }
}

/// In a well-formed arena every participant's game data is in range.
pub proof fn lemma_participant_ok(w: World, i: int)
    requires
        w.wf(),
    ensures
        participant_ok(participant_of(w, i)),
{
    if w.live(i) {
        assert(entity_ok(w.slots@[i]));
    }
}

/// The slimes one combine request spawns, as a function of its
/// participants and the drawn random color.
pub open spec fn spawns_of(base: Participant, addition: Participant, random_color: SlimeColor) -> Seq<
    SlimeData,
> {
    match (base, addition) {
        (Participant::SlimeOf(b), Participant::SlimeOf(a)) => merge_spawns(b, a, random_color),
        (Participant::SpiderOf(_), Participant::SlimeOf(a)) => split_spawns(a),
        _ => Seq::<SlimeData>::empty(),
    }
}

/// Whether one combine request destroys its base.
pub open spec fn base_destroyed_by(base: Participant, addition: Participant) -> bool {
    match (base, addition) {
        (Participant::SlimeOf(_), Participant::SlimeOf(_)) => true,
        (Participant::SpiderOf(sp), Participant::SlimeOf(a)) => spider_killed(sp, a),
        _ => false,
    }
}

/// Whether one combine request destroys its addition.
pub open spec fn addition_destroyed_by(base: Participant, addition: Participant) -> bool {
    match (base, addition) {
        (Participant::SlimeOf(_), Participant::SlimeOf(_)) => true,
        (Participant::SpiderOf(_), Participant::SlimeOf(_)) => true,
        _ => false,
    }
}

/// How much one combine request adds to the score: one per spider kill.
pub open spec fn score_delta_of(base: Participant, addition: Participant) -> int {
    match (base, addition) {
        (Participant::SpiderOf(sp), Participant::SlimeOf(a)) => if spider_killed(sp, a) {
            1int
        } else {
            0int
        },
        _ => 0int,
    }
}

/// Every slime a resolution spawns has a size in the valid range.
pub proof fn lemma_spawn_sizes_valid(base: Participant, addition: Participant, rc: SlimeColor)
    requires
        participant_ok(base),
        participant_ok(addition),
    ensures
        forall|t: int|
            0 <= t < spawns_of(base, addition, rc).len() ==> SLIME_SIZE_MIN <= (#[trigger] spawns_of(
                base,
                addition,
                rc,
            )[t]).size <= SLIME_SIZE_MAX,
{
    let s = spawns_of(base, addition, rc);
    assert forall|t: int| 0 <= t < s.len() implies SLIME_SIZE_MIN <= (#[trigger] s[t]).size
        <= SLIME_SIZE_MAX by {
        match (base, addition) {
            (Participant::SlimeOf(b), Participant::SlimeOf(a)) => {
                if b.size + a.size > SLIME_SIZE_MAX {
                    assert(s.len() == 4);
                } else {
                    assert(s.len() == 1);
                }
            },
            (Participant::SpiderOf(_), Participant::SlimeOf(a)) => {},
            _ => {},
        }
    }
}

/// The full outcome the resolver owes for a given pair of participants:
/// slime onto slime merges (both destroyed, no score), slime onto spider
/// attacks (the spider dies exactly when `spider_killed` holds and then
/// scores one, the slime always splits and dies), and any other pairing —
/// a stale handle or a spider addition — is discarded without effect.
pub open spec fn resolution_correct(
    base: Participant,
    addition: Participant,
    random_color: SlimeColor,
    r: Resolution,
) -> bool {
    match (base, addition) {
        (Participant::SlimeOf(b), Participant::SlimeOf(a)) => {
            &&& r.spawns@ == merge_spawns(b, a, random_color)
            &&& r.destroy_base
            &&& r.destroy_addition
            &&& r.score_delta == 0
        },
        (Participant::SpiderOf(sp), Participant::SlimeOf(a)) => {
            &&& r.spawns@ == split_spawns(a)
            &&& r.destroy_base == spider_killed(sp, a)
            &&& r.destroy_addition
            &&& r.score_delta == (if spider_killed(sp, a) {
                1int
            } else {
                0int
            })
        },
        _ => {
            &&& r.spawns@ == Seq::<SlimeData>::empty()
            &&& !r.destroy_base
            &&& !r.destroy_addition
            &&& r.score_delta == 0
        },
    }
}

/// Resolves one combine request; the first matching case of
/// `resolution_correct` wins.
pub fn resolve_combine(base: Participant, addition: Participant, random_color: SlimeColor) -> (r:
    Resolution)
    requires
        participant_ok(base),
        participant_ok(addition),
    ensures
        resolution_correct(base, addition, random_color, r),
{
    let mut spawns: Vec<SlimeData> = Vec::new();
    match (base, addition) {
        (Participant::SlimeOf(b), Participant::SlimeOf(a)) => {
            let sum = b.size + a.size;
            if sum > SLIME_SIZE_MAX {
                let excess = sum - SLIME_SIZE_MAX;
                let overflow = if excess < SLIME_SIZE_MIN {
                    SLIME_SIZE_MIN
                } else if excess > SLIME_SIZE_MAX {
                    SLIME_SIZE_MAX
                } else {
                    excess
                };
                spawns.push(SlimeData { color: a.color, size: SLIME_SIZE_MAX / 2 });
                spawns.push(SlimeData { color: a.color, size: SLIME_SIZE_MAX - SLIME_SIZE_MAX / 2 });
                spawns.push(SlimeData { color: a.color, size: overflow });
                spawns.push(SlimeData { color: random_color, size: 1 });
                proof {
                    assert(spawns@ =~= merge_spawns(b, a, random_color));
                }
            } else {
                spawns.push(SlimeData { color: a.color, size: sum });
                proof {
                    assert(spawns@ =~= merge_spawns(b, a, random_color));
                }
            }
            Resolution { spawns, destroy_base: true, destroy_addition: true, score_delta: 0 }
        },
        (Participant::SpiderOf(sp), Participant::SlimeOf(a)) => {
            let killed = sp.level <= a.size && sp.weakness == a.color;
            let lo = a.size / 2;
            let hi = a.size - lo;
            if lo > 0 {
                spawns.push(SlimeData { color: a.color, size: lo });
            }
            if hi > 0 {
                spawns.push(SlimeData { color: a.color, size: hi });
            }
            proof {
                assert(spawns@ =~= split_spawns(a));
            }
            Resolution {
                spawns,
                destroy_base: killed,
                destroy_addition: true,
                score_delta: if killed {
                    1
                } else {
                    0
                },
            }
        },
        _ => {
            proof {
                assert(spawns@ =~= Seq::<SlimeData>::empty());
            }
            Resolution { spawns, destroy_base: false, destroy_addition: false, score_delta: 0 }
        },
    }
}

} // verus!
