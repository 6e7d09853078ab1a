//! The closed set of sound themes and their one-byte encoding.

use vstd::prelude::*;

verus! {

/// A sound theme the train can play.
#[derive(Clone, Copy, Debug, PartialEq, Eq, Structural)]
pub enum SoundTheme {
    Honk,
    Whistle,
    Horn,
    Spaceship,
}

impl SoundTheme {
    /// Position of the theme in the protocol's ordering, 0 through 3.
    pub open spec fn ordinal(self) -> int {
        match self {
            SoundTheme::Honk => 0,
            SoundTheme::Whistle => 1,
            SoundTheme::Horn => 2,
            SoundTheme::Spaceship => 3,
        }
    }

    /// The payload byte for the theme: 0xF0 plus the ordinal.
    pub fn get_command_value(&self) -> (v: u8)
        ensures
            v == 0xF0 + self.ordinal(),
    {
        match self {
            SoundTheme::Honk => 0xF0,
            SoundTheme::Whistle => 0xF1,
            SoundTheme::Horn => 0xF2,
            SoundTheme::Spaceship => 0xF3,
        }
    }
}

} // verus!
