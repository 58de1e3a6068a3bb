//! The fixed eight-color palette shared by slimes and spider weaknesses.

use vstd::prelude::*;

verus! {

/// Number of colors in the palette.
pub const COLOR_COUNT: u8 = 8;

/// One of the eight fixed slime colors.
#[derive(Clone, Copy, Debug, PartialEq, Eq, Hash, Structural)]
pub enum SlimeColor {
    Red,
    Green,
    Blue,
    Cyan,
    Purple,
    Yellow,
    White,
    Black,
}

impl SlimeColor {
    /// Position of this color in the fixed palette order.
    pub open spec fn index_spec(self) -> int {
        match self {
            SlimeColor::Red => 0,
            SlimeColor::Green => 1,
            SlimeColor::Blue => 2,
            SlimeColor::Cyan => 3,
            SlimeColor::Purple => 4,
            SlimeColor::Yellow => 5,
            SlimeColor::Black => 6,
            SlimeColor::White => 7,
        }
    }

    /// The color standing at `i` in the fixed palette order.
    pub fn from_index(i: u8) -> (c: Self)
        requires
            i < COLOR_COUNT,
        ensures
            c.index_spec() == i as int,
    {
        match i {
            0 => SlimeColor::Red,
            1 => SlimeColor::Green,
            2 => SlimeColor::Blue,
            3 => SlimeColor::Cyan,
            4 => SlimeColor::Purple,
            5 => SlimeColor::Yellow,
            6 => SlimeColor::Black,
            _ => SlimeColor::White,
        }
    }

    /// Position of this color in the fixed palette order.
    pub fn index(self) -> (i: u8)
        ensures
            i as int == self.index_spec(),
    {
        match self {
            SlimeColor::Red => 0,
            SlimeColor::Green => 1,
            SlimeColor::Blue => 2,
            SlimeColor::Cyan => 3,
            SlimeColor::Purple => 4,
            SlimeColor::Yellow => 5,
            SlimeColor::Black => 6,
            SlimeColor::White => 7,
        }
    }

    /// Lower-case display name of the color.
    pub fn name(self) -> (s: &'static str)
        ensures
            s@ == self.name_spec(),
    {
        match self {
            SlimeColor::Red => "red",
            SlimeColor::Green => "green",
            SlimeColor::Blue => "blue",
            SlimeColor::Cyan => "cyan",
            SlimeColor::Purple => "purple",
            SlimeColor::Yellow => "yellow",
            SlimeColor::White => "white",
            SlimeColor::Black => "black",
        }
    }

    /// Lower-case display name of the color.
    pub open spec fn name_spec(self) -> Seq<char> {
        match self {
            SlimeColor::Red => "red"@,
            SlimeColor::Green => "green"@,
            SlimeColor::Blue => "blue"@,
            SlimeColor::Cyan => "cyan"@,
            SlimeColor::Purple => "purple"@,
            SlimeColor::Yellow => "yellow"@,
            SlimeColor::White => "white"@,
            SlimeColor::Black => "black"@,
        }
    }

    /// The red/green/blue display components of the color.
    pub fn rgb(self) -> (c: (u8, u8, u8))
        ensures
            c == self.rgb_spec(),
    {
        match self {
            SlimeColor::Red => (224, 84, 66),
            SlimeColor::Green => (79, 175, 73),
            SlimeColor::Blue => (69, 140, 192),
            SlimeColor::Cyan => (0, 200, 221),
            SlimeColor::Purple => (159, 84, 205),
            SlimeColor::Yellow => (232, 208, 85),
            SlimeColor::White => (217, 217, 217),
            SlimeColor::Black => (11, 11, 11),
        }
    }

    /// The red/green/blue display components of the color.
    pub open spec fn rgb_spec(self) -> (u8, u8, u8) {
        match self {
            SlimeColor::Red => (224u8, 84u8, 66u8),
            SlimeColor::Green => (79u8, 175u8, 73u8),
            SlimeColor::Blue => (69u8, 140u8, 192u8),
            SlimeColor::Cyan => (0u8, 200u8, 221u8),
            SlimeColor::Purple => (159u8, 84u8, 205u8),
            SlimeColor::Yellow => (232u8, 208u8, 85u8),
            SlimeColor::White => (217u8, 217u8, 217u8),
            SlimeColor::Black => (11u8, 11u8, 11u8),
        }
    }
}

/// All eight colors, in the fixed palette order.
pub fn all_colors() -> (v: Vec<SlimeColor>)
    ensures
        v@.len() == COLOR_COUNT as int,
        forall|i: int| 0 <= i < v@.len() ==> (#[trigger] v@[i]).index_spec() == i,
{
    let mut v: Vec<SlimeColor> = Vec::new();
    v.push(SlimeColor::Red);
    v.push(SlimeColor::Green);
    v.push(SlimeColor::Blue);
    v.push(SlimeColor::Cyan);
    v.push(SlimeColor::Purple);
    v.push(SlimeColor::Yellow);
    v.push(SlimeColor::Black);
    v.push(SlimeColor::White);
    v
}

} // verus!
