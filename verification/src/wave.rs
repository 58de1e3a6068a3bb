//! The wave director: a repeating timer that, each time it elapses,
//! requests one spider with a random level and weakness at the right edge
//! of the play field.

use vstd::prelude::*;
use crate::color::SlimeColor;
use crate::geom::{Vec2, WINDOW_WIDTH, WINDOW_HEIGHT};
use crate::rng::random_in_range;
use crate::world::{SPIDER_LEVEL_MIN, SPIDER_LEVEL_MAX, SPIDER_RADIUS, spider_radius_spec};

verus! {

/// Period of the spider wave, in milliseconds.
pub const SPIDER_SPAWN_PERIOD_MS: u32 = 5000;

/// Walking speed every spider is issued with.
pub const SPIDER_SPEED: i32 = 60;

/// A repeating countdown: fires whenever the accumulated time reaches the
/// period, and carries the remainder over.
#[derive(Clone, Copy, Debug, PartialEq, Eq, Structural)]
pub struct SpawnTimer {
    pub period_ms: u32,
    pub elapsed_ms: u32,
}

impl SpawnTimer {
    /// The accumulated time always stays below the (positive) period.
    pub open spec fn wf(self) -> bool {
        self.period_ms > 0 && self.elapsed_ms < self.period_ms
    }

    /// A fresh timer with nothing accumulated.
    pub fn new(period_ms: u32) -> (t: SpawnTimer)
        requires
            period_ms > 0,
        ensures
            t.wf(),
            t.period_ms == period_ms,
            t.elapsed_ms == 0,
    {
        SpawnTimer { period_ms, elapsed_ms: 0 }
    }

    /// Starts the period over, as when the in-game phase is (re)entered.
    pub fn reset(&mut self)
        ensures
            final(self).period_ms == old(self).period_ms,
            final(self).elapsed_ms == 0,
    {
        self.elapsed_ms = 0;
    }

    /// Advances the timer by `delta_ms`: it fires exactly when the
    /// accumulated time reaches the period, and keeps the remainder.
    pub fn tick(&mut self, delta_ms: u32) -> (fired: bool)
        requires
            old(self).wf(),
        ensures
            final(self).wf(),
            final(self).period_ms == old(self).period_ms,
            fired == (old(self).elapsed_ms + delta_ms >= old(self).period_ms),
            final(self).elapsed_ms as int == (old(self).elapsed_ms + delta_ms) % (
            old(self).period_ms as int),
    {
        let total: u64 = self.elapsed_ms as u64 + delta_ms as u64;
        let fired = total >= self.period_ms as u64;
        self.elapsed_ms = (total % (self.period_ms as u64)) as u32;
        fired
    }
}

/// One spider the wave director asks for: its attributes and where it
/// enters the field.
#[derive(Clone, Copy, Debug, PartialEq, Eq, Structural)]
pub struct SpiderSpawnRequest {
    pub level: u32,
    pub weakness: SlimeColor,
    pub speed: i32,
    pub position: Vec2,
}

/// Draws the next spider: a uniformly random level and weakness, the
/// fixed speed, entering just past the right edge at a random height
/// within the middle third of the field's vertical extent.
pub fn next_spider_request() -> (r: SpiderSpawnRequest)
    ensures
        SPIDER_LEVEL_MIN <= r.level <= SPIDER_LEVEL_MAX,
        r.speed == SPIDER_SPEED,
        r.position.x as int == WINDOW_WIDTH as int / 2 + spider_radius_spec(r.level),
        -(WINDOW_HEIGHT as int / 6) <= r.position.y < WINDOW_HEIGHT as int / 6,
{
    let level_raw = random_in_range(SPIDER_LEVEL_MIN as i32, SPIDER_LEVEL_MAX as i32 + 1);
    let level = level_raw as u32;
    proof {
        assert((1 + level_raw) * 18i32 >= 0 && (1 + level_raw) * 18i32 <= 90) by (nonlinear_arith)
            requires
                1 <= level_raw < 5,
        ;
    }
    let weakness = SlimeColor::from_index(random_in_range(0, 8) as u8);
    let x = WINDOW_WIDTH / 2 + (1 + level_raw) * 18;
    let y = random_in_range(-(WINDOW_HEIGHT / 6), WINDOW_HEIGHT / 6);
    SpiderSpawnRequest { level, weakness, speed: SPIDER_SPEED, position: Vec2 { x, y } }
}

} // verus!
