//! The closed set of lamp hues the train understands, and its encoding
//! into one payload byte: the hue's ordinal in the high nibble, a 4-bit
//! intensity in the low nibble.

use vstd::prelude::*;

verus! {

/// Number of hues in the set.
pub const COLOR_COUNT: u8 = 12;

/// A lamp hue.
#[derive(Clone, Copy, Debug, PartialEq, Eq, Structural)]
pub enum Color {
    Off,
    Yellow,
    Orange,
    Red,
    Pink,
    Purple,
    Blue,
    LightBlue,
    Cyan,
    Green,
    White,
    RedBackward,
}

impl Color {
    /// Position of the hue in the protocol's ordering, 0 through 11.
    pub open spec fn ordinal(self) -> int {
        match self {
            Color::Off => 0,
            Color::Yellow => 1,
            Color::Orange => 2,
            Color::Red => 3,
            Color::Pink => 4,
            Color::Purple => 5,
            Color::Blue => 6,
            Color::LightBlue => 7,
            Color::Cyan => 8,
            Color::Green => 9,
            Color::White => 10,
            Color::RedBackward => 11,
        }
    }

    /// The payload byte for this hue at `intensity`: sixteen times the
    /// ordinal plus the intensity.
    pub fn get_command_value(&self, intensity: u8) -> (v: u8)
        requires
            intensity < 16,
        ensures
            v == self.ordinal() * 16 + intensity,
    {
        let ord: u8 = match self {
            Color::Off => 0,
            Color::Yellow => 1,
            Color::Orange => 2,
            Color::Red => 3,
            Color::Pink => 4,
            Color::Purple => 5,
            Color::Blue => 6,
            Color::LightBlue => 7,
            Color::Cyan => 8,
            Color::Green => 9,
            Color::White => 10,
            Color::RedBackward => 11,
        };
        ord * 16 + intensity
    }

    /// Cyclic successor: one step along the protocol's ordering, wrapping
    /// from the last hue back to the first.
    pub fn next(&self) -> (c: Color)
        ensures
            c.ordinal() == (self.ordinal() + 1) % (COLOR_COUNT as int),
    {
        match self {
            Color::Off => Color::Yellow,
            Color::Yellow => Color::Orange,
            Color::Orange => Color::Red,
            Color::Red => Color::Pink,
            Color::Pink => Color::Purple,
            Color::Purple => Color::Blue,
            Color::Blue => Color::LightBlue,
            Color::LightBlue => Color::Cyan,
            Color::Cyan => Color::Green,
            Color::Green => Color::White,
            Color::White => Color::RedBackward,
            Color::RedBackward => Color::Off,
        }
    }
}

/// Every hue once, in ordinal order.
pub fn all_colors() -> (v: Vec<Color>)
    ensures
        v@ == seq![
            Color::Off,
            Color::Yellow,
            Color::Orange,
            Color::Red,
            Color::Pink,
            Color::Purple,
            Color::Blue,
            Color::LightBlue,
            Color::Cyan,
            Color::Green,
            Color::White,
            Color::RedBackward,
        ],
        forall|i: int| 0 <= i < v@.len() ==> #[trigger] v@[i].ordinal() == i,
{
    let v = vec![
        Color::Off,
        Color::Yellow,
        Color::Orange,
        Color::Red,
        Color::Pink,
        Color::Purple,
        Color::Blue,
        Color::LightBlue,
        Color::Cyan,
        Color::Green,
        Color::White,
        Color::RedBackward,
    ];
    v
}

} // verus!
