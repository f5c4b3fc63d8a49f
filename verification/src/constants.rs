use vstd::prelude::*;

verus! {

/// The OpenGL version that the toolkit asks a window for.
pub const GL_MAJOR: usize = 4;

pub const GL_MINOR: usize = 1;

pub const MICROS_PER_SECOND: u32 = 1_000_000;

/// The length of one frame at 60 frames a second, in whole microseconds.
pub const FRAME_TIME_60FPS_IN_MICROS: u128 = 16_666;

/// The length of one frame at 30 frames a second, in whole microseconds.
pub const FRAME_TIME_30FPS_IN_MICROS: u128 = 33_333;

/// How long to sleep at the end of a frame that took `elapsed` microseconds
/// so that it lasts `frame_time` microseconds: the rest of the frame time,
/// or `None` where the frame has used it up. A rest beyond 64 bits is cut
/// to its low 64 bits.
pub fn frame_sleep_micros(frame_time: u128, elapsed: u128) -> (sleep: Option<u64>)
    ensures
        frame_time > elapsed ==> sleep == Some(((frame_time - elapsed) % 0x1_0000_0000_0000_0000) as u64),
        frame_time <= elapsed ==> sleep is None,
        frame_time > elapsed && frame_time <= u64::MAX ==> sleep == Some((frame_time - elapsed) as u64),
{
    if frame_time > elapsed {
        let time_to_sleep: u128 = frame_time - elapsed;
        let low: u128 = time_to_sleep % 0x1_0000_0000_0000_0000u128;
        Some(low as u64)
    } else {
        None
    }
}

} // verus!
