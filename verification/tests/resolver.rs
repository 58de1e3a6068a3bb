//! Rule-engine tests: merging, overflow splitting, combat resolution.

use slime_garden::color::SlimeColor;
use slime_garden::resolve::{resolve_combine, Participant};
use slime_garden::world::{SlimeData, SpiderData};

fn slime(color: SlimeColor, size: u32) -> Participant {
    Participant::SlimeOf(SlimeData { color, size })
}

fn spider(level: u32, weakness: SlimeColor) -> Participant {
    Participant::SpiderOf(SpiderData {
        level,
        weakness,
        speed: 60,
    })
}

#[test]
fn merge_within_max_yields_one_slime_of_summed_size() {
    for a in 1..=5u32 {
        for b in 1..=5u32 {
            if a + b <= 5 {
                let r = resolve_combine(
                    slime(SlimeColor::Green, a),
                    slime(SlimeColor::Purple, b),
                    SlimeColor::Red,
                );
                assert_eq!(r.spawns.len(), 1);
                assert_eq!(r.spawns[0].color, SlimeColor::Purple);
                assert_eq!(r.spawns[0].size, a + b);
                assert!(r.destroy_base);
                assert!(r.destroy_addition);
                assert_eq!(r.score_delta, 0);
            }
        }
    }
}

#[test]
fn merge_over_max_yields_four_slimes_with_overflow() {
    for a in 1..=5u32 {
        for b in 1..=5u32 {
            if a + b > 5 {
                let overflow = (a + b - 5).clamp(1, 5);
                let r = resolve_combine(
                    slime(SlimeColor::Cyan, a),
                    slime(SlimeColor::Black, b),
                    SlimeColor::White,
                );
                assert_eq!(r.spawns.len(), 4);
                assert_eq!(r.spawns[0].size, 2);
                assert_eq!(r.spawns[1].size, 3);
                assert_eq!(r.spawns[2].size, overflow);
                assert_eq!(r.spawns[3].size, 1);
                assert_eq!(r.spawns[0].color, SlimeColor::Black);
                assert_eq!(r.spawns[1].color, SlimeColor::Black);
                assert_eq!(r.spawns[2].color, SlimeColor::Black);
                assert_eq!(r.spawns[3].color, SlimeColor::White);
                assert!(r.destroy_base);
                assert!(r.destroy_addition);
                assert_eq!(r.score_delta, 0);
            }
        }
    }
}

#[test]
fn spider_dies_iff_level_covered_and_weakness_matches() {
    for level in 1..=4u32 {
        for size in 1..=5u32 {
            for matching in [true, false] {
                let weakness = SlimeColor::Red;
                let color = if matching {
                    SlimeColor::Red
                } else {
                    SlimeColor::Blue
                };
                let r = resolve_combine(
                    spider(level, weakness),
                    slime(color, size),
                    SlimeColor::Yellow,
                );
                let expect_kill = level <= size && matching;
                assert_eq!(r.destroy_base, expect_kill);
                assert_eq!(r.score_delta, if expect_kill { 1 } else { 0 });
                assert!(r.destroy_addition);
                // the slime always shatters into its two halves
                let lo = size / 2;
                let hi = size - lo;
                let mut expected = Vec::new();
                if lo > 0 {
                    expected.push(lo);
                }
                if hi > 0 {
                    expected.push(hi);
                }
                let got: Vec<u32> = r.spawns.iter().map(|s| s.size).collect();
                assert_eq!(got, expected);
                for s in &r.spawns {
                    assert_eq!(s.color, color);
                }
            }
        }
    }
}

#[test]
fn spider_addition_or_stale_handle_is_discarded() {
    let r = resolve_combine(
        spider(2, SlimeColor::Red),
        spider(3, SlimeColor::Blue),
        SlimeColor::Green,
    );
    assert!(r.spawns.is_empty());
    assert!(!r.destroy_base);
    assert!(!r.destroy_addition);
    assert_eq!(r.score_delta, 0);

    let r = resolve_combine(
        Participant::Missing,
        slime(SlimeColor::Red, 3),
        SlimeColor::Green,
    );
    assert!(r.spawns.is_empty());
    assert!(!r.destroy_base);
    assert!(!r.destroy_addition);
    assert_eq!(r.score_delta, 0);

    let r = resolve_combine(
        slime(SlimeColor::Red, 3),
        Participant::Missing,
        SlimeColor::Green,
    );
    assert!(r.spawns.is_empty());
    assert!(!r.destroy_base);
    assert!(!r.destroy_addition);
    assert_eq!(r.score_delta, 0);
}

#[test]
fn red_two_onto_blue_two_gives_blue_four() {
    let r = resolve_combine(
        slime(SlimeColor::Red, 2),
        slime(SlimeColor::Blue, 2),
        SlimeColor::Green,
    );
    assert_eq!(r.spawns.len(), 1);
    assert_eq!(r.spawns[0].color, SlimeColor::Blue);
    assert_eq!(r.spawns[0].size, 4);
    assert!(r.destroy_base);
    assert!(r.destroy_addition);
}

#[test]
fn yellow_three_onto_green_four_overflows_to_four_slimes() {
    let r = resolve_combine(
        slime(SlimeColor::Green, 4),
        slime(SlimeColor::Yellow, 3),
        SlimeColor::Cyan,
    );
    assert_eq!(r.spawns.len(), 4);
    assert_eq!(
        (r.spawns[0].color, r.spawns[0].size),
        (SlimeColor::Yellow, 2)
    );
    assert_eq!(
        (r.spawns[1].color, r.spawns[1].size),
        (SlimeColor::Yellow, 3)
    );
    assert_eq!(
        (r.spawns[2].color, r.spawns[2].size),
        (SlimeColor::Yellow, 2)
    );
    assert_eq!((r.spawns[3].color, r.spawns[3].size), (SlimeColor::Cyan, 1));
}

#[test]
fn red_three_kills_level_two_red_weak_spider() {
    let r = resolve_combine(
        spider(2, SlimeColor::Red),
        slime(SlimeColor::Red, 3),
        SlimeColor::White,
    );
    assert!(r.destroy_base);
    assert_eq!(r.score_delta, 1);
    assert!(r.destroy_addition);
    let pieces: Vec<(SlimeColor, u32)> = r.spawns.iter().map(|s| (s.color, s.size)).collect();
    assert_eq!(pieces, vec![(SlimeColor::Red, 1), (SlimeColor::Red, 2)]);
}

#[test]
fn blue_one_fails_against_level_three_spider_but_still_splits() {
    let r = resolve_combine(
        spider(3, SlimeColor::Red),
        slime(SlimeColor::Blue, 1),
        SlimeColor::White,
    );
    assert!(!r.destroy_base);
    assert_eq!(r.score_delta, 0);
    assert!(r.destroy_addition);
    let pieces: Vec<(SlimeColor, u32)> = r.spawns.iter().map(|s| (s.color, s.size)).collect();
    assert_eq!(pieces, vec![(SlimeColor::Blue, 1)]);
}
