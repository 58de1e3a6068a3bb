//! Integer 2D geometry: world coordinates, clamped translation, and the
//! activation-radius test that drives hover and drag targeting.

use vstd::prelude::*;

verus! {

/// Width of the play field, in world units.
pub const WINDOW_WIDTH: i32 = 1280;

/// Height of the play field, in world units.
pub const WINDOW_HEIGHT: i32 = 720;

/// Horizontal boundary near the left edge; a spider crossing it ends the
/// in-game phase.
pub const GARDEN_X: i32 = -640 + 32 * 5;

/// A 2D point or vector in world coordinates.
#[derive(Clone, Copy, Debug, PartialEq, Eq, Structural)]
pub struct Vec2 {
    pub x: i32,
    pub y: i32,
}

/// `v` brought back into the representable coordinate range.
pub open spec fn clamp_coord(v: int) -> int {
    if v > i32::MAX as int {
        i32::MAX as int
    } else if v < i32::MIN as int {
        i32::MIN as int
    } else {
        v
    }
}

/// The sum of two coordinates, clamped to the representable range.
pub fn add_coord(a: i32, b: i32) -> (r: i32)
    ensures
        r as int == clamp_coord(a + b),
{
    let s: i64 = a as i64 + b as i64;
    if s > i32::MAX as i64 {
        i32::MAX
    } else if s < (i32::MIN as i64) {
        i32::MIN
    } else {
        s as i32
    }
}

impl Vec2 {
    /// This point translated by `(dx, dy)`, each coordinate clamped to the
    /// representable range.
    pub fn translated(self, dx: i32, dy: i32) -> (r: Vec2)
        ensures
            r.x as int == clamp_coord(self.x + dx),
            r.y as int == clamp_coord(self.y + dy),
    {
        Vec2 { x: add_coord(self.x, dx), y: add_coord(self.y, dy) }
    }
}

/// Whether `point` lies strictly inside the circle of radius `radius`
/// around `center`, by squared Euclidean distance.
pub open spec fn within_radius(center: Vec2, point: Vec2, radius: u32) -> bool {
    let dx = center.x - point.x;
    let dy = center.y - point.y;
    dx * dx + dy * dy < (radius as int) * (radius as int)
}

/// Decides `within_radius` on machine integers.
pub fn check_within_radius(center: Vec2, point: Vec2, radius: u32) -> (r: bool)
    ensures
        r == within_radius(center, point, radius),
{
    let dx: i64 = center.x as i64 - point.x as i64;
    let dy: i64 = center.y as i64 - point.y as i64;
    proof {
        assert(dx * dx <= 0x1_0000_0000_0000_0000i128 && dx * dx >= 0) by (nonlinear_arith)
            requires
                -0x1_0000_0000i128 <= dx <= 0x1_0000_0000i128,
        ;
        assert(dy * dy <= 0x1_0000_0000_0000_0000i128 && dy * dy >= 0) by (nonlinear_arith)
            requires
                -0x1_0000_0000i128 <= dy <= 0x1_0000_0000i128,
        ;
        assert((radius as i128) * (radius as i128) <= 0x1_0000_0000_0000_0000i128) by (
        nonlinear_arith)
            requires
                0 <= radius as i128 <= 0x1_0000_0000i128,
        ;
    }
    let dist_sq: i128 = (dx as i128) * (dx as i128) + (dy as i128) * (dy as i128);
    let radius_sq: i128 = (radius as i128) * (radius as i128);
    dist_sq < radius_sq
}

} // verus!
