//! The state of a sound that is being played.
//!
//! A sound plays until it is told to stop or runs out of samples. Told to
//! stop, it fades out first. What the scenario can wait for is read off the
//! state.

use vstd::prelude::*;
use crate::vm::command::types::flags::AudioWaitStatus;
use crate::vm::command::types::{Pan, Ticks, Volume};

verus! {

pub const COMMAND_BUFFER_CAPACITY: usize = 8;

/// What a sound can be told while it plays.
#[derive(Debug, Clone, Copy, PartialEq, Eq, Structural)]
pub enum Command {
    SetVolume(Volume, Ticks),
    SetPanning(Pan, Ticks),
    Stop(Ticks),
}

/// The playback state of a sound.
#[derive(Debug, Clone, Copy, PartialEq, Eq, Hash, Structural)]
pub enum PlaybackState {
    /// The sound is playing normally.
    Playing,
    /// The sound is fading out, and when the fade-out
    /// is finished, playback will stop.
    Stopping,
    /// The sound has stopped and can no longer be resumed.
    Stopped,
}

/// The flags of a sound in `state` whose volume and panning are at rest or
/// not. The play speed never changes, so it is always at rest.
pub open spec fn wait_status_bits(state: PlaybackState, volume_idle: bool, panning_idle: bool) -> int {
    (if state == PlaybackState::Stopped {
        2int
    } else {
        0int
    }) + (if state == PlaybackState::Playing {
        1int
    } else {
        0int
    }) + (if volume_idle {
        4int
    } else {
        0int
    }) + (if panning_idle {
        8int
    } else {
        0int
    }) + 16
}

impl PlaybackState {
    /// The state after the sound was told to stop: it fades out.
    pub fn stop(self) -> (state: PlaybackState)
        ensures
            state == PlaybackState::Stopping,
    {
        PlaybackState::Stopping
    }

    /// The state after a block of samples. A sound that fades out has stopped
    /// once the fade is over, and any sound has stopped once it has run out
    /// of samples.
    pub open spec fn spec_after_block(self, fade_idle: bool, exhausted: bool) -> PlaybackState {
        if exhausted || (self == PlaybackState::Stopping && fade_idle) {
            PlaybackState::Stopped
        } else {
            self
        }
    }

    #[verifier::when_used_as_spec(spec_after_block)]
    pub fn after_block(self, fade_idle: bool, exhausted: bool) -> (state: PlaybackState)
        ensures
            state == self.spec_after_block(fade_idle, exhausted),
    {
        let mut state = self;
        if state == PlaybackState::Stopping && fade_idle {
            state = PlaybackState::Stopped;
        }
        if exhausted {
            state = PlaybackState::Stopped;
        }
        state
    }

    /// Whether the sound is at its end.
    pub fn finished(self) -> (finished: bool)
        ensures
            finished == (self == PlaybackState::Stopped),
    {
        self == PlaybackState::Stopped
    }

    /// What the scenario can wait for.
    pub fn wait_status(self, volume_idle: bool, panning_idle: bool) -> (status: AudioWaitStatus)
        ensures
            status.spec_bits() == wait_status_bits(self, volume_idle, panning_idle),
    {
        let mut bits: i32 = 0;
        if self == PlaybackState::Stopped {
            bits = bits + AudioWaitStatus::STOPPED;
        }
        if self == PlaybackState::Playing {
            bits = bits + AudioWaitStatus::PLAYING;
        }
        if volume_idle {
            bits = bits + AudioWaitStatus::VOLUME_TWEENER_IDLE;
        }
        if panning_idle {
            bits = bits + AudioWaitStatus::PANNING_TWEENER_IDLE;
        }
        bits = bits + AudioWaitStatus::PLAY_SPEED_TWEENER_IDLE;
        match AudioWaitStatus::from_bits(bits) {
            Some(status) => status,
            None => vstd::pervasive::unreached(),
        }
    }
}

/// How far into a sound `samples` samples are at `sample_rate` samples a
/// second, in milliseconds.
pub fn position_millis(samples: u32, sample_rate: u32) -> (millis: u32)
    requires
        sample_rate > 0,
        samples as int * 1000 / sample_rate as int <= u32::MAX,
    ensures
        millis == samples as int * 1000 / sample_rate as int,
{
    let position = samples as u64 * 1000 / sample_rate as u64;
    position as u32
}

/// What becomes of a sound and its settings when it is told `command`: the
/// state, and the volume and the panning that it moves towards.
pub fn apply_command(state: PlaybackState, volume: Volume, panning: Pan, command: Command) -> (next:
    (PlaybackState, Volume, Pan))
    ensures
        next == (match command {
            Command::SetVolume(value, _) => (state, value, panning),
            Command::SetPanning(value, _) => (state, volume, value),
            Command::Stop(_) => (PlaybackState::Stopping, volume, panning),
        }),
{
    match command {
        Command::SetVolume(value, _) => (state, value, panning),
        Command::SetPanning(value, _) => (state, volume, value),
        Command::Stop(_) => (state.stop(), volume, panning),
    }
}

} // verus!
