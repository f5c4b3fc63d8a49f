use crate::constants::frame_sleep_micros;
use crate::constants::MICROS_PER_SECOND;
use vstd::prelude::*;

verus! {

/// What the frame loop does once a frame is shown.
#[derive(Clone, Copy, Debug, PartialEq, Eq, Structural)]
pub enum FrameStep {
    /// The loop ends.
    Stop,
    /// The loop sleeps for that many microseconds, if any, and goes on with
    /// the next frame.
    Next { sleep_micros: Option<u64> },
}

/// Plays a movie frame by frame: update, show, present, and then what
/// [`MoviePlayer::after_frame`] says.
pub struct MoviePlayer {}

impl MoviePlayer {
    /// The length of one frame at `framerate` frames a second, in whole
    /// microseconds.
    pub open spec fn frame_micros(framerate: nat) -> nat
        recommends
            framerate > 0,
    {
        MICROS_PER_SECOND as nat / framerate
    }

    /// The step after a frame that took `elapsed` of its `frame_time`
    /// microseconds: the loop ends on the window's close signal or on the
    /// escape key, and else sleeps for what is left of the frame time.
    pub open spec fn step(should_close: bool, escape_pressed: bool, frame_time: u128, elapsed: u128)
        -> FrameStep {
        if should_close || escape_pressed {
            FrameStep::Stop
        } else if frame_time > elapsed {
            FrameStep::Next {
                sleep_micros: Some(((frame_time - elapsed) % 0x1_0000_0000_0000_0000) as u64),
            }
        } else {
            FrameStep::Next { sleep_micros: None }
        }
    }

    /// The length of one frame at `framerate` frames a second, in whole
    /// microseconds; `None` for no frames a second.
    pub fn frame_time_micros(framerate: usize) -> (frame_time: Option<u128>)
        ensures
            framerate == 0 ==> frame_time is None,
            framerate > 0 ==> frame_time == Some(Self::frame_micros(framerate as nat) as u128),
    {
        if framerate == 0 {
            None
        } else {
            Some((MICROS_PER_SECOND as u128) / (framerate as u128))
        }
    }

    /// Decides what follows a frame: see [`MoviePlayer::step`].
    pub fn after_frame(
        should_close: bool,
        escape_pressed: bool,
        frame_time: u128,
        elapsed: u128,
    ) -> (step: FrameStep)
        ensures
            step == Self::step(should_close, escape_pressed, frame_time, elapsed),
    {
        if should_close || escape_pressed {
            FrameStep::Stop
        } else {
            FrameStep::Next { sleep_micros: frame_sleep_micros(frame_time, elapsed) }
        }
    }
}

/// At the two standard frame rates the frame time is the standard one.
pub proof fn lemma_standard_frame_times()
    ensures
        MoviePlayer::frame_micros(60) == crate::constants::FRAME_TIME_60FPS_IN_MICROS,
        MoviePlayer::frame_micros(30) == crate::constants::FRAME_TIME_30FPS_IN_MICROS,
{
}

} // verus!
