//! Interaction-tracker tests: hover recomputation, single-drag selection,
//! drag snapping, release and the emitted combine request, and overlay
//! cleanup.

use slime_garden::geom::Vec2;
use slime_garden::world::{EntityKind, World};

fn count_dragged(w: &World) -> usize {
    let mut n = 0;
    for id in 0..w.slot_count() {
        let e = w.get(id).unwrap();
        if e.alive && e.dragged {
            n += 1;
        }
    }
    n
}

fn count_both_dragged_and_hovered(w: &World) -> usize {
    let mut n = 0;
    for id in 0..w.slot_count() {
        let e = w.get(id).unwrap();
        if e.alive && e.dragged && e.hovered {
            n += 1;
        }
    }
    n
}

#[test]
fn slime_radius_follows_size_formula() {
    let mut w = World::new();
    for size in 1..=5u32 {
        let id = w.spawn_slime(
            slime_garden::color::SlimeColor::Red,
            size,
            Vec2 { x: 0, y: 0 },
        );
        assert_eq!(w.get(id).unwrap().radius, (1 + size) * 14);
    }
}

#[test]
fn spider_radius_follows_level_formula_and_walks_left() {
    let mut w = World::new();
    for level in 1..=4u32 {
        let id = w.spawn_spider(
            level,
            slime_garden::color::SlimeColor::Cyan,
            60,
            Vec2 { x: 100, y: 0 },
        );
        let e = w.get(id).unwrap();
        assert_eq!(e.radius, (1 + level) * 18);
        assert_eq!((e.vel.x, e.vel.y), (-60, 0));
    }
}

#[test]
fn hover_is_set_inside_radius_and_cleared_outside() {
    let mut w = World::new();
    let id = w.spawn_slime(slime_garden::color::SlimeColor::Red, 1, Vec2 { x: 0, y: 0 });
    // radius 28: a pointer 10 units away hovers, one 30 units away does not
    w.update_hover(Some(Vec2 { x: 10, y: 0 }));
    assert!(w.get(id).unwrap().hovered);
    w.update_hover(Some(Vec2 { x: 30, y: 0 }));
    assert!(!w.get(id).unwrap().hovered);
    // exactly at the radius is outside (strict comparison)
    w.update_hover(Some(Vec2 { x: 28, y: 0 }));
    assert!(!w.get(id).unwrap().hovered);
    // an absent pointer clears every hover flag
    w.update_hover(Some(Vec2 { x: 0, y: 0 }));
    assert!(w.get(id).unwrap().hovered);
    w.update_hover(None);
    assert!(!w.get(id).unwrap().hovered);
}

#[test]
fn drag_start_picks_first_overlapping_entity_only() {
    let mut w = World::new();
    let a = w.spawn_slime(slime_garden::color::SlimeColor::Red, 2, Vec2 { x: 0, y: 0 });
    let b = w.spawn_slime(slime_garden::color::SlimeColor::Blue, 2, Vec2 { x: 5, y: 0 });
    // both radii (42) contain the pointer; the first in arena order wins
    w.drag_start(Vec2 { x: 3, y: 0 });
    assert!(w.get(a).unwrap().dragged);
    assert!(!w.get(b).unwrap().dragged);
    assert!(!w.get(a).unwrap().collisions_on);
    assert_eq!(count_dragged(&w), 1);
    // a second press while a drag is active selects nothing further
    w.drag_start(Vec2 { x: 5, y: 0 });
    assert_eq!(count_dragged(&w), 1);
    assert!(!w.get(b).unwrap().dragged);
}

#[test]
fn drag_start_over_empty_ground_is_a_no_op() {
    let mut w = World::new();
    let a = w.spawn_slime(slime_garden::color::SlimeColor::Red, 1, Vec2 { x: 0, y: 0 });
    w.drag_start(Vec2 { x: 500, y: 500 });
    assert_eq!(count_dragged(&w), 0);
    assert!(!w.get(a).unwrap().dragged);
}

#[test]
fn dragged_entity_never_hovers() {
    let mut w = World::new();
    let a = w.spawn_slime(slime_garden::color::SlimeColor::Red, 1, Vec2 { x: 0, y: 0 });
    w.update_hover(Some(Vec2 { x: 0, y: 0 }));
    assert!(w.get(a).unwrap().hovered);
    w.drag_start(Vec2 { x: 0, y: 0 });
    assert!(w.get(a).unwrap().dragged);
    assert!(!w.get(a).unwrap().hovered);
    // recomputing hover with the pointer still on top keeps exclusivity
    w.update_hover(Some(Vec2 { x: 0, y: 0 }));
    assert_eq!(count_both_dragged_and_hovered(&w), 0);
}

#[test]
fn drag_update_snaps_dragged_entity_to_pointer() {
    let mut w = World::new();
    let a = w.spawn_slime(slime_garden::color::SlimeColor::Red, 1, Vec2 { x: 0, y: 0 });
    let b = w.spawn_slime(slime_garden::color::SlimeColor::Blue, 1, Vec2 { x: 200, y: 0 });
    w.drag_start(Vec2 { x: 0, y: 0 });
    w.drag_update(Some(Vec2 { x: 77, y: -33 }));
    let e = w.get(a).unwrap();
    assert_eq!((e.pos.x, e.pos.y), (77, -33));
    // the undragged entity stays put
    let other = w.get(b).unwrap();
    assert_eq!((other.pos.x, other.pos.y), (200, 0));
    // an absent pointer leaves the position alone
    w.drag_update(None);
    let e = w.get(a).unwrap();
    assert_eq!((e.pos.x, e.pos.y), (77, -33));
}

#[test]
fn drag_end_over_hovered_target_emits_request() {
    let mut w = World::new();
    let a = w.spawn_slime(slime_garden::color::SlimeColor::Red, 2, Vec2 { x: 0, y: 0 });
    let b = w.spawn_slime(slime_garden::color::SlimeColor::Blue, 2, Vec2 { x: 300, y: 0 });
    // pick up the second slime and carry it over the first
    w.drag_start(Vec2 { x: 300, y: 0 });
    assert!(w.get(b).unwrap().dragged);
    w.update_hover(Some(Vec2 { x: 0, y: 0 }));
    w.drag_update(Some(Vec2 { x: 0, y: 0 }));
    let req = w.drag_end(Some(Vec2 { x: 0, y: 0 })).unwrap();
    assert_eq!(req.base, a);
    assert_eq!(req.addition, b);
    assert_eq!((req.location.x, req.location.y), (0, 0));
    // the released entity is at rest with collisions back on
    let e = w.get(b).unwrap();
    assert!(!e.dragged);
    assert!(e.collisions_on);
    assert_eq!((e.vel.x, e.vel.y), (0, 0));
}

#[test]
fn drag_end_without_hover_ends_quietly() {
    let mut w = World::new();
    let a = w.spawn_slime(slime_garden::color::SlimeColor::Red, 1, Vec2 { x: 0, y: 0 });
    w.drag_start(Vec2 { x: 0, y: 0 });
    w.drag_update(Some(Vec2 { x: 400, y: 0 }));
    let req = w.drag_end(Some(Vec2 { x: 400, y: 0 }));
    assert!(req.is_none());
    assert!(!w.get(a).unwrap().dragged);
}

#[test]
fn drag_survives_many_press_release_rounds_with_single_drag() {
    let mut w = World::new();
    for i in 0..4 {
        w.spawn_slime(
            slime_garden::color::SlimeColor::Green,
            1,
            Vec2 { x: i * 10, y: 0 },
        );
    }
    for round in 0..10 {
        let p = Vec2 {
            x: (round % 4) * 10,
            y: 0,
        };
        w.drag_start(p);
        assert!(count_dragged(&w) <= 1);
        assert_eq!(count_both_dragged_and_hovered(&w), 0);
        w.update_hover(Some(p));
        assert_eq!(count_both_dragged_and_hovered(&w), 0);
        w.drag_end(Some(p));
        assert_eq!(count_dragged(&w), 0);
    }
}

#[test]
fn stale_text_overlays_are_dropped() {
    let mut w = World::new();
    let a = w.spawn_slime(slime_garden::color::SlimeColor::Red, 1, Vec2 { x: 0, y: 0 });
    let s = w.spawn_spider(2, slime_garden::color::SlimeColor::Blue, 60, Vec2 { x: 100, y: 0 });
    // one label for the slime, two for the spider
    assert_eq!(w.texts.len(), 3);
    assert!(w.texts.iter().all(|t| t.is_some()));
    w.despawn(a);
    w.cleanup_stale_texts();
    assert!(w.texts[0].is_none());
    assert!(w.texts[1].is_some());
    assert!(w.texts[2].is_some());
    assert_eq!(w.texts[1].unwrap().owner, s);
    w.despawn(s);
    w.cleanup_stale_texts();
    assert!(w.texts.iter().all(|t| t.is_none()));
}

#[test]
fn despawn_kills_and_clears_flags() {
    let mut w = World::new();
    let a = w.spawn_slime(slime_garden::color::SlimeColor::Red, 1, Vec2 { x: 0, y: 0 });
    w.update_hover(Some(Vec2 { x: 0, y: 0 }));
    assert!(w.get(a).unwrap().hovered);
    w.despawn(a);
    let e = w.get(a).unwrap();
    assert!(!e.alive);
    assert!(!e.hovered);
    assert!(!e.dragged);
    // the slot keeps its data for post-mortem inspection
    assert!(matches!(e.kind, EntityKind::Slime(_)));
    // despawning an out-of-range handle is ignored
    w.despawn(999);
    assert_eq!(w.slot_count(), 1);
}
