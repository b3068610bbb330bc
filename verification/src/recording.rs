//! What the global shortcuts do to a recording.
//!
//! One shortcut toggles the recording; another records while it is held. The
//! functions here decide what a key event changes and which effects follow;
//! the caller carries the effects out in their order.

use crate::audio::SoundType;
use crate::events::EventName;
use crate::settings::AppSettings;
use vstd::prelude::*;

verus! {

/// The time given to the start sound before the audio is muted, in
/// milliseconds.
pub const SOUND_LEAD_MILLIS: u64 = 150;

/// The shortcuts that record.
#[derive(Debug, Clone, Copy, PartialEq, Eq, Structural)]
pub enum RecordingShortcut {
    /// Starts a recording when pressed, and stops it when pressed again.
    Toggle,
    /// Records for as long as it is held.
    Hold,
}

/// What happened to a shortcut's key.
#[derive(Debug, Clone, Copy, PartialEq, Eq, Structural)]
pub enum ShortcutKeyState {
    Pressed,
    Released,
}

/// What the application remembers of the recording between two key events.
#[derive(Debug, Clone, Copy, PartialEq, Eq, Structural)]
pub struct RecordingFlags {
    /// Whether a recording runs.
    pub is_recording: bool,
    /// Whether the hold shortcut is held down.
    pub ptt_key_held: bool,
}

/// A change of the recording.
#[derive(Debug, Clone, Copy, PartialEq, Eq, Structural)]
pub enum RecordingTransition {
    Start,
    Stop,
}

/// What a key event makes of the flags, and the change of the recording that
/// it brings about, if any.
#[derive(Debug, Clone, Copy, PartialEq, Eq, Structural)]
pub struct ShortcutOutcome {
    pub flags: RecordingFlags,
    pub transition: Option<RecordingTransition>,
}

/// What a key event does.
///
/// The toggle shortcut acts when pressed and not when released: it stops a
/// running recording and starts one where none runs. The hold shortcut starts
/// a recording on the first press, so that the repeated presses of a held key
/// do nothing, and stops it on the release of a key that was held.
pub open spec fn shortcut_outcome(
    flags: RecordingFlags,
    shortcut: RecordingShortcut,
    key_state: ShortcutKeyState,
) -> ShortcutOutcome {
    match (shortcut, key_state) {
        (RecordingShortcut::Toggle, ShortcutKeyState::Pressed) => ShortcutOutcome {
            flags: RecordingFlags { is_recording: !flags.is_recording, ..flags },
            transition: Some(
                if flags.is_recording {
                    RecordingTransition::Stop
                } else {
                    RecordingTransition::Start
                },
            ),
        },
        (RecordingShortcut::Toggle, ShortcutKeyState::Released) => ShortcutOutcome {
            flags,
            transition: None,
        },
        (RecordingShortcut::Hold, ShortcutKeyState::Pressed) => if flags.ptt_key_held {
            ShortcutOutcome { flags, transition: None }
        } else {
            ShortcutOutcome {
                flags: RecordingFlags { is_recording: true, ptt_key_held: true },
                transition: Some(RecordingTransition::Start),
            }
        },
        (RecordingShortcut::Hold, ShortcutKeyState::Released) => if flags.ptt_key_held {
            ShortcutOutcome {
                flags: RecordingFlags { is_recording: false, ptt_key_held: false },
                transition: Some(RecordingTransition::Stop),
            }
        } else {
            ShortcutOutcome { flags, transition: None }
        },
    }
}

/// Decides what a key event does.
pub fn handle_recording_shortcut(
    flags: RecordingFlags,
    shortcut: RecordingShortcut,
    key_state: ShortcutKeyState,
) -> (r: ShortcutOutcome)
    ensures
        r == shortcut_outcome(flags, shortcut, key_state),
{
    match shortcut {
        RecordingShortcut::Toggle => match key_state {
            ShortcutKeyState::Pressed => {
                if flags.is_recording {
                    ShortcutOutcome {
                        flags: RecordingFlags {
                            is_recording: false,
                            ptt_key_held: flags.ptt_key_held,
                        },
                        transition: Some(RecordingTransition::Stop),
                    }
                } else {
                    ShortcutOutcome {
                        flags: RecordingFlags {
                            is_recording: true,
                            ptt_key_held: flags.ptt_key_held,
                        },
                        transition: Some(RecordingTransition::Start),
                    }
                }
            },
            ShortcutKeyState::Released => ShortcutOutcome { flags, transition: None },
        },
        RecordingShortcut::Hold => match key_state {
            ShortcutKeyState::Pressed => {
                if flags.ptt_key_held {
                    ShortcutOutcome { flags, transition: None }
                } else {
                    ShortcutOutcome {
                        flags: RecordingFlags { is_recording: true, ptt_key_held: true },
                        transition: Some(RecordingTransition::Start),
                    }
                }
            },
            ShortcutKeyState::Released => {
                if flags.ptt_key_held {
                    ShortcutOutcome {
                        flags: RecordingFlags { is_recording: false, ptt_key_held: false },
                        transition: Some(RecordingTransition::Stop),
                    }
                } else {
                    ShortcutOutcome { flags, transition: None }
                }
            },
        },
    }
}

/// One thing to do when a recording starts or stops.
#[derive(Debug, Clone, Copy, PartialEq, Eq, Structural)]
pub enum RecordingEffect {
    PlaySound(SoundType),
    /// Wait for so many milliseconds.
    Wait(u64),
    MuteAudio,
    UnmuteAudio,
    Emit(EventName),
}

/// The effects of a change of the recording, in their order.
///
/// At the start the sound is played before the audio is muted, and is given
/// time to be heard. At the stop the audio is unmuted before the sound is
/// played. The event comes last.
pub open spec fn effects_of(
    transition: RecordingTransition,
    sound_enabled: bool,
    auto_mute_audio: bool,
) -> Seq<RecordingEffect> {
    match transition {
        RecordingTransition::Start => (if sound_enabled {
            seq![
                RecordingEffect::PlaySound(SoundType::RecordingStart),
                RecordingEffect::Wait(SOUND_LEAD_MILLIS),
            ]
        } else {
            Seq::empty()
        }) + (if auto_mute_audio {
            seq![RecordingEffect::MuteAudio]
        } else {
            Seq::empty()
        }) + seq![RecordingEffect::Emit(EventName::RecordingStart)],
        RecordingTransition::Stop => (if auto_mute_audio {
            seq![RecordingEffect::UnmuteAudio]
        } else {
            Seq::empty()
        }) + (if sound_enabled {
            seq![RecordingEffect::PlaySound(SoundType::RecordingStop)]
        } else {
            Seq::empty()
        }) + seq![RecordingEffect::Emit(EventName::RecordingStop)],
    }
}

/// Lists the effects of a change of the recording, in their order.
pub fn recording_effects(
    transition: RecordingTransition,
    sound_enabled: bool,
    auto_mute_audio: bool,
) -> (r: Vec<RecordingEffect>)
    ensures
        r@ == effects_of(transition, sound_enabled, auto_mute_audio),
{
    let mut effects: Vec<RecordingEffect> = Vec::new();
    match transition {
        RecordingTransition::Start => {
            if sound_enabled {
                effects.push(RecordingEffect::PlaySound(SoundType::RecordingStart));
                effects.push(RecordingEffect::Wait(SOUND_LEAD_MILLIS));
            }
            if auto_mute_audio {
                effects.push(RecordingEffect::MuteAudio);
            }
            effects.push(RecordingEffect::Emit(EventName::RecordingStart));
        },
        RecordingTransition::Stop => {
            if auto_mute_audio {
                effects.push(RecordingEffect::UnmuteAudio);
            }
            if sound_enabled {
                effects.push(RecordingEffect::PlaySound(SoundType::RecordingStop));
            }
            effects.push(RecordingEffect::Emit(EventName::RecordingStop));
        },
    }
    assert(effects@ =~= effects_of(transition, sound_enabled, auto_mute_audio));
    effects
}

/// Whether sounds are played and whether the audio is muted during a
/// recording, as the settings say; sounds and no muting where the settings
/// cannot be read.
pub fn recording_preferences(settings: Option<&AppSettings>) -> (r: (bool, bool))
    ensures
        r == match settings {
            Some(settings) => (settings.sound_enabled, settings.auto_mute_audio),
            None => (true, false),
        },
{
    match settings {
        Some(settings) => (settings.sound_enabled, settings.auto_mute_audio),
        None => (true, false),
    }
}

/// A recording that the toggle shortcut started is stopped by the next press
/// of the toggle shortcut, and the flags are then as they were.
pub proof fn lemma_toggle_twice_restores(flags: RecordingFlags)
    ensures
        shortcut_outcome(
            shortcut_outcome(
                flags,
                RecordingShortcut::Toggle,
                ShortcutKeyState::Pressed,
            ).flags,
            RecordingShortcut::Toggle,
            ShortcutKeyState::Pressed,
        ).flags == flags,
{
}

/// While the hold shortcut is held, its repeated presses change nothing.
pub proof fn lemma_held_key_repeats_are_ignored(flags: RecordingFlags)
    ensures
        shortcut_outcome(
            shortcut_outcome(flags, RecordingShortcut::Hold, ShortcutKeyState::Pressed).flags,
            RecordingShortcut::Hold,
            ShortcutKeyState::Pressed,
        ) == (ShortcutOutcome {
            flags: shortcut_outcome(
                flags,
                RecordingShortcut::Hold,
                ShortcutKeyState::Pressed,
            ).flags,
            transition: None,
        }),
{
}

} // verus!
