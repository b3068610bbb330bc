//! The sounds that mark the start and the end of a recording.

use vstd::prelude::*;

verus! {

/// The sounds that can be played.
#[derive(Debug, Clone, Copy, PartialEq, Eq, Structural)]
pub enum SoundType {
    RecordingStart,
    RecordingStop,
}

/// How long a sound is taken to last where its length is not known, in
/// milliseconds.
pub const DEFAULT_SOUND_DURATION_MILLIS: u64 = 500;

/// How long the player waits after the end of a sound, in milliseconds.
pub const SOUND_TAIL_MILLIS: u64 = 50;

/// The time to wait for a sound to play out, in milliseconds: its length, or
/// the default where the length is not known, and the tail.
pub fn playback_wait_millis(total_duration_millis: Option<u64>) -> (r: u64)
    requires
        total_duration_millis matches Some(total) ==> total + SOUND_TAIL_MILLIS <= u64::MAX,
    ensures
        r == match total_duration_millis {
            Some(total) => total,
            None => DEFAULT_SOUND_DURATION_MILLIS,
        } + SOUND_TAIL_MILLIS,
{
    let duration: u64 = match total_duration_millis {
        Some(total) => total,
        None => DEFAULT_SOUND_DURATION_MILLIS,
    };
    duration + SOUND_TAIL_MILLIS
}

} // verus!
