//! Phase-machine and pipeline tests: starting and restarting a game, the
//! wave timer, spider spawning, the garden boundary, and full drag-merge
//! and drag-attack rounds through the tick pipeline.

use slime_garden::color::SlimeColor;
use slime_garden::game::{Game, Phase, PointerState};
use slime_garden::geom::{Vec2, GARDEN_X};
use slime_garden::wave::SpawnTimer;
use slime_garden::world::{EntityKind, World};

fn idle() -> PointerState {
    PointerState {
        position: None,
        pressed: false,
        released: false,
    }
}

fn press_at(x: i32, y: i32) -> PointerState {
    PointerState {
        position: Some(Vec2 { x, y }),
        pressed: true,
        released: false,
    }
}

fn hold_at(x: i32, y: i32) -> PointerState {
    PointerState {
        position: Some(Vec2 { x, y }),
        pressed: false,
        released: false,
    }
}

fn release_at(x: i32, y: i32) -> PointerState {
    PointerState {
        position: Some(Vec2 { x, y }),
        pressed: false,
        released: true,
    }
}

/// A game already in play on an empty field, for tests that stage their
/// own entities.
fn in_game_on_empty_field() -> Game {
    Game {
        world: World::new(),
        score: 0,
        timer: SpawnTimer::new(5000),
        phase: Phase::InGame,
    }
}

fn live_slimes(w: &World) -> Vec<(SlimeColor, u32, i32, i32)> {
    let mut v = Vec::new();
    for id in 0..w.slot_count() {
        let e = w.get(id).unwrap();
        if e.alive {
            if let EntityKind::Slime(s) = e.kind {
                v.push((s.color, s.size, e.pos.x, e.pos.y));
            }
        }
    }
    v
}

fn live_spiders(w: &World) -> Vec<(u32, SlimeColor, i32, i32)> {
    let mut v = Vec::new();
    for id in 0..w.slot_count() {
        let e = w.get(id).unwrap();
        if e.alive {
            if let EntityKind::Spider(s) = e.kind {
                v.push((s.level, s.weakness, e.pos.x, e.pos.y));
            }
        }
    }
    v
}

#[test]
fn fresh_game_waits_in_pregame() {
    let g = Game::new();
    assert_eq!(g.phase, Phase::PreGame);
    assert_eq!(g.score, 0);
    assert_eq!(g.world.slot_count(), 0);
}

#[test]
fn pregame_ignores_everything_but_a_press() {
    let mut g = Game::new();
    g.tick(idle(), 16);
    g.tick(hold_at(0, 0), 16);
    g.tick(release_at(0, 0), 16);
    assert_eq!(g.phase, Phase::PreGame);
    assert_eq!(g.world.slot_count(), 0);
}

#[test]
fn first_press_starts_game_with_two_slimes_of_each_color() {
    let mut g = Game::new();
    g.tick(press_at(0, 0), 16);
    assert_eq!(g.phase, Phase::InGame);
    assert_eq!(g.score, 0);
    let slimes = live_slimes(&g.world);
    assert_eq!(slimes.len(), 16);
    for all in &slimes {
        let (_, size, x, y) = *all;
        assert_eq!(size, 1);
        assert!((-576..576).contains(&x));
        assert!((-324..324).contains(&y));
    }
    // exactly two of each of the eight colors
    for idx in 0..8u8 {
        let color = SlimeColor::from_index(idx);
        assert_eq!(slimes.iter().filter(|s| s.0 == color).count(), 2);
    }
}

#[test]
fn timer_fires_on_period_and_carries_remainder() {
    let mut t = SpawnTimer::new(5000);
    assert!(!t.tick(4999));
    assert_eq!(t.elapsed_ms, 4999);
    assert!(t.tick(1));
    assert_eq!(t.elapsed_ms, 0);
    assert!(t.tick(10001));
    assert_eq!(t.elapsed_ms, 1);
    t.reset();
    assert_eq!(t.elapsed_ms, 0);
    assert_eq!(t.period_ms, 5000);
}

#[test]
fn wave_issues_spider_at_right_edge_when_timer_elapses() {
    let mut g = in_game_on_empty_field();
    g.tick(idle(), 4999);
    assert!(live_spiders(&g.world).is_empty());
    g.tick(idle(), 1);
    let spiders = live_spiders(&g.world);
    assert_eq!(spiders.len(), 1);
    let (level, _, x, y) = spiders[0];
    assert!((1..=4).contains(&level));
    assert_eq!(x, 640 + (1 + level as i32) * 18);
    assert!((-120..120).contains(&y));
}

#[test]
fn spider_crossing_boundary_ends_game_once() {
    let mut g = in_game_on_empty_field();
    g.world
        .spawn_spider(2, SlimeColor::Red, 60, Vec2 { x: GARDEN_X - 20, y: 0 });
    g.tick(idle(), 16);
    assert_eq!(g.phase, Phase::GameOver);
    // the crossed spider is still on the field, at rest
    let spiders = live_spiders(&g.world);
    assert_eq!(spiders.len(), 1);
    // further ticks (and further crossings) leave game-over in place
    g.tick(idle(), 16);
    g.tick(hold_at(0, 0), 16);
    assert_eq!(g.phase, Phase::GameOver);
}

#[test]
fn spider_exactly_on_boundary_does_not_end_game() {
    let mut g = in_game_on_empty_field();
    g.world
        .spawn_spider(1, SlimeColor::Red, 60, Vec2 { x: GARDEN_X, y: 0 });
    g.tick(idle(), 16);
    assert_eq!(g.phase, Phase::InGame);
}

#[test]
fn game_over_entry_stops_and_strips_the_field() {
    let mut g = in_game_on_empty_field();
    g.world
        .spawn_slime(SlimeColor::Red, 3, Vec2 { x: 0, y: 0 });
    g.world
        .spawn_spider(2, SlimeColor::Red, 60, Vec2 { x: GARDEN_X - 1, y: 0 });
    g.tick(idle(), 16);
    assert_eq!(g.phase, Phase::GameOver);
    for id in 0..g.world.slot_count() {
        let e = g.world.get(id).unwrap();
        assert_eq!((e.vel.x, e.vel.y), (0, 0));
        assert!(!e.hovered);
    }
    assert!(g.world.texts.iter().all(|t| t.is_none()));
}

#[test]
fn restart_clears_the_field_and_starts_fresh() {
    let mut g = in_game_on_empty_field();
    g.score = 7;
    g.world
        .spawn_slime(SlimeColor::Red, 3, Vec2 { x: 0, y: 0 });
    g.world
        .spawn_spider(2, SlimeColor::Red, 60, Vec2 { x: GARDEN_X - 1, y: 0 });
    g.tick(idle(), 16);
    assert_eq!(g.phase, Phase::GameOver);
    assert_eq!(g.score, 7);
    let old_count = g.world.slot_count();
    g.tick(press_at(0, 0), 16);
    assert_eq!(g.phase, Phase::InGame);
    assert_eq!(g.score, 0);
    // every pre-restart entity is gone; sixteen fresh slimes stand
    for id in 0..old_count {
        assert!(!g.world.get(id).unwrap().alive);
    }
    assert_eq!(live_slimes(&g.world).len(), 16);
    assert!(live_spiders(&g.world).is_empty());
}

#[test]
fn drag_merge_round_through_ticks() {
    let mut g = in_game_on_empty_field();
    let a = g
        .world
        .spawn_slime(SlimeColor::Red, 2, Vec2 { x: 0, y: 0 });
    let b = g
        .world
        .spawn_slime(SlimeColor::Blue, 2, Vec2 { x: 300, y: 0 });
    // press on the blue slime, carry it onto the red one, release
    g.tick(press_at(300, 0), 16);
    assert!(g.world.get(b).unwrap().dragged);
    g.tick(hold_at(150, 0), 16);
    assert_eq!(g.world.get(b).unwrap().pos.x, 150);
    g.tick(release_at(0, 0), 16);
    // both merged slimes gone, one blue size-four slime near the drop point
    assert!(!g.world.get(a).unwrap().alive);
    assert!(!g.world.get(b).unwrap().alive);
    let slimes = live_slimes(&g.world);
    assert_eq!(slimes.len(), 1);
    let (color, size, x, y) = slimes[0];
    assert_eq!(color, SlimeColor::Blue);
    assert_eq!(size, 4);
    assert!((0..20).contains(&x));
    assert!((0..20).contains(&y));
    assert_eq!(g.score, 0);
    // the merged slime's text overlay survives the same tick's cleanup,
    // while the two destroyed slimes' overlays are swept
    let overlays: Vec<usize> = g
        .world
        .texts
        .iter()
        .flatten()
        .map(|t| t.owner)
        .collect();
    assert_eq!(overlays.len(), 1);
    assert!(g.world.get(overlays[0]).unwrap().alive);
}

#[test]
fn drag_attack_round_kills_spider_and_splits_slime() {
    let mut g = in_game_on_empty_field();
    let s = g
        .world
        .spawn_spider(2, SlimeColor::Red, 60, Vec2 { x: 400, y: 0 });
    let a = g
        .world
        .spawn_slime(SlimeColor::Red, 3, Vec2 { x: 0, y: 0 });
    g.tick(press_at(0, 0), 16);
    assert!(g.world.get(a).unwrap().dragged);
    g.tick(release_at(400, 0), 16);
    assert!(!g.world.get(s).unwrap().alive);
    assert!(!g.world.get(a).unwrap().alive);
    assert_eq!(g.score, 1);
    let pieces: Vec<u32> = live_slimes(&g.world).iter().map(|s| s.1).collect();
    assert_eq!(pieces, vec![1, 2]);
}

#[test]
fn failed_attack_leaves_spider_and_score_untouched() {
    let mut g = in_game_on_empty_field();
    let s = g
        .world
        .spawn_spider(3, SlimeColor::Red, 60, Vec2 { x: 400, y: 0 });
    let a = g
        .world
        .spawn_slime(SlimeColor::Blue, 1, Vec2 { x: 0, y: 0 });
    g.tick(press_at(0, 0), 16);
    g.tick(release_at(400, 0), 16);
    assert!(g.world.get(s).unwrap().alive);
    assert!(!g.world.get(a).unwrap().alive);
    assert_eq!(g.score, 0);
    // size one splits into zero and one: only the size-one piece returns
    let pieces: Vec<u32> = live_slimes(&g.world).iter().map(|s| s.1).collect();
    assert_eq!(pieces, vec![1]);
}

#[test]
fn release_over_empty_ground_just_drops_the_slime() {
    let mut g = in_game_on_empty_field();
    let a = g
        .world
        .spawn_slime(SlimeColor::Red, 2, Vec2 { x: 0, y: 0 });
    g.tick(press_at(0, 0), 16);
    g.tick(release_at(500, 500), 16);
    let e = g.world.get(a).unwrap();
    assert!(e.alive);
    assert!(!e.dragged);
    assert_eq!((e.pos.x, e.pos.y), (500, 500));
    assert_eq!(live_slimes(&g.world).len(), 1);
}
