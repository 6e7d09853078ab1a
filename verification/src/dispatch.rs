//! The semantic operations: speed, direction, colour and sound, each built
//! as one fully framed command ready to be written to the control endpoint.
//! Out-of-range arguments are rejected here, before any frame is built.

use vstd::prelude::*;
use crate::codec::{encode_frame, spec_encode};
use crate::color::Color;
use crate::sound::SoundTheme;

verus! {

/// Why an operation was rejected before any frame was built.
#[derive(Clone, Copy, Debug, PartialEq, Eq, Structural)]
pub enum CommandError {
    /// The caller passed a value outside the operation's range.
    InvalidArgument,
}

/// Opcode of the raw speed command.
pub const OP_SPEED: u8 = 0x01;

/// Opcode of the lamp colour command.
pub const OP_COLOR: u8 = 0x02;

/// First byte of the sound-theme command.
pub const OP_SOUND_0: u8 = 0x56;

/// Second byte of the sound-theme command.
pub const OP_SOUND_1: u8 = 0xAA;

/// Highest raw speed level the protocol carries.
pub const MAX_SPEED_LEVEL: u8 = 0x1F;

/// Highest direction speed a caller may ask for.
pub const MAX_DIRECTION_SPEED: u8 = 7;

/// The raw speed frame: payload `[OP_SPEED, level]`, framed.
pub fn set_speed(level: u8) -> (frame: Vec<u8>)
    requires
        level <= MAX_SPEED_LEVEL,
    ensures
        frame@ == spec_encode(seq![OP_SPEED, level]),
{
    let mut payload: Vec<u8> = Vec::new();
    payload.push(OP_SPEED);
    payload.push(level);
    proof {
        assert(payload@ =~= seq![OP_SPEED, level]);
    }
    encode_frame(&payload)
}

/// Drive forward: speeds 1 through 7 map to raw level `speed + 1`; speed 0
/// and speeds above 7 are rejected.
pub fn forward(speed: u8) -> (r: Result<Vec<u8>, CommandError>)
    ensures
        1 <= speed <= MAX_DIRECTION_SPEED ==> (r matches Ok(f) && f@ == spec_encode(
            seq![OP_SPEED, (speed + 1) as u8],
        )),
        !(1 <= speed <= MAX_DIRECTION_SPEED) ==> r == Err::<Vec<u8>, CommandError>(
            CommandError::InvalidArgument,
        ),
{
    if speed == 0 || speed > MAX_DIRECTION_SPEED {
        return Err(CommandError::InvalidArgument);
    }
    Ok(set_speed(speed + 1))
}

/// Drive backward: speeds 1 through 7 map to raw level `speed + 0x11`;
/// speed 0 and speeds above 7 are rejected.
pub fn backward(speed: u8) -> (r: Result<Vec<u8>, CommandError>)
    ensures
        1 <= speed <= MAX_DIRECTION_SPEED ==> (r matches Ok(f) && f@ == spec_encode(
            seq![OP_SPEED, (speed + 0x11) as u8],
        )),
        !(1 <= speed <= MAX_DIRECTION_SPEED) ==> r == Err::<Vec<u8>, CommandError>(
            CommandError::InvalidArgument,
        ),
{
    if speed == 0 || speed > MAX_DIRECTION_SPEED {
        return Err(CommandError::InvalidArgument);
    }
    Ok(set_speed(speed + 0x11))
}

/// Halt: the raw speed frame at level 0.
pub fn stop() -> (frame: Vec<u8>)
    ensures
        frame@ == spec_encode(seq![OP_SPEED, 0u8]),
{
    set_speed(0)
}

/// Set the lamp: payload `[OP_COLOR, hue byte]`, framed; an intensity of 16
/// or more is rejected.
pub fn set_color(color: Color, intensity: u8) -> (r: Result<Vec<u8>, CommandError>)
    ensures
        intensity < 16 ==> (r matches Ok(f) && f@ == spec_encode(
            seq![OP_COLOR, (color.ordinal() * 16 + intensity) as u8],
        )),
        intensity >= 16 ==> r == Err::<Vec<u8>, CommandError>(CommandError::InvalidArgument),
{
    if intensity >= 16 {
        return Err(CommandError::InvalidArgument);
    }
    let mut payload: Vec<u8> = Vec::new();
    payload.push(OP_COLOR);
    payload.push(color.get_command_value(intensity));
    proof {
        assert(payload@ =~= seq![OP_COLOR, (color.ordinal() * 16 + intensity) as u8]);
    }
    Ok(encode_frame(&payload))
}

/// Choose the sound theme: payload `[OP_SOUND_0, OP_SOUND_1, theme byte]`,
/// framed.
pub fn set_sound_theme(theme: SoundTheme) -> (frame: Vec<u8>)
    ensures
        frame@ == spec_encode(seq![OP_SOUND_0, OP_SOUND_1, (0xF0 + theme.ordinal()) as u8]),
{
    let mut payload: Vec<u8> = Vec::new();
    payload.push(OP_SOUND_0);
    payload.push(OP_SOUND_1);
    payload.push(theme.get_command_value());
    proof {
        assert(payload@ =~= seq![OP_SOUND_0, OP_SOUND_1, (0xF0 + theme.ordinal()) as u8]);
    }
    encode_frame(&payload)
}

} // verus!
