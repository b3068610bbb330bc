//! The decisions of the mute manager, apart from the system calls that carry
//! them out.

use crate::audio_mute::AudioControlError;
use crate::audio_mute::MuteState;
use vstd::prelude::*;

verus! {

/// What is to be done to the system's audio.
#[derive(Debug, Clone, Copy, PartialEq, Eq, Structural)]
pub enum MuteTransitionAction {
    NoOp,
    SetMuted(bool),
}

/// A step of the mute manager: what to do, and the state to be in once it is
/// done.
#[derive(Debug, Clone, Copy, PartialEq, Eq, Structural)]
pub struct MuteTransitionDecision {
    pub next_state: MuteState,
    pub action: MuteTransitionAction,
}

/// The step that muting takes. Audio that the user has muted is left alone and
/// remembered as such; audio that plays is muted; a manager that is muting
/// already does nothing.
pub open spec fn mute_transition(current_mute_state: MuteState, audio_is_currently_muted: bool)
    -> MuteTransitionDecision {
    match current_mute_state {
        MuteState::NotMuting => if audio_is_currently_muted {
            MuteTransitionDecision {
                next_state: MuteState::AudioWasAlreadyMutedByUser,
                action: MuteTransitionAction::NoOp,
            }
        } else {
            MuteTransitionDecision {
                next_state: MuteState::MutedByUs,
                action: MuteTransitionAction::SetMuted(true),
            }
        },
        _ => MuteTransitionDecision {
            next_state: current_mute_state,
            action: MuteTransitionAction::NoOp,
        },
    }
}

/// The step that unmuting takes. Only audio that the manager muted is
/// unmuted; in every case the manager stops muting.
pub open spec fn unmute_transition(current_mute_state: MuteState) -> MuteTransitionDecision {
    MuteTransitionDecision {
        next_state: MuteState::NotMuting,
        action: if current_mute_state == MuteState::MutedByUs {
            MuteTransitionAction::SetMuted(false)
        } else {
            MuteTransitionAction::NoOp
        },
    }
}

/// Whether the audio counts as muted once the system was asked: it does where
/// the system says so, and it counts as playing where the system does not
/// tell.
pub open spec fn counts_as_muted(query: Result<bool, AudioControlError>) -> bool {
    match query {
        Ok(muted) => muted,
        Err(_) => false,
    }
}

/// Reads the system's answer to the question whether the audio is muted. A
/// question that failed is no failure of muting: the audio is then taken to
/// play.
pub fn audio_counts_as_muted(query: &Result<bool, AudioControlError>) -> (r: bool)
    ensures
        r == counts_as_muted(*query),
{
    match query {
        Ok(muted) => *muted,
        Err(_) => false,
    }
}

/// Decides the step that muting takes.
pub fn decide_mute_transition(current_mute_state: MuteState, audio_is_currently_muted: bool) -> (r:
    MuteTransitionDecision)
    ensures
        r == mute_transition(current_mute_state, audio_is_currently_muted),
{
    match current_mute_state {
        MuteState::NotMuting => {
            if audio_is_currently_muted {
                MuteTransitionDecision {
                    next_state: MuteState::AudioWasAlreadyMutedByUser,
                    action: MuteTransitionAction::NoOp,
                }
            } else {
                MuteTransitionDecision {
                    next_state: MuteState::MutedByUs,
                    action: MuteTransitionAction::SetMuted(true),
                }
            }
        },
        MuteState::MutedByUs | MuteState::AudioWasAlreadyMutedByUser => MuteTransitionDecision {
            next_state: current_mute_state,
            action: MuteTransitionAction::NoOp,
        },
    }
}

/// Decides the step that unmuting takes.
pub fn decide_unmute_transition(current_mute_state: MuteState) -> (r: MuteTransitionDecision)
    ensures
        r == unmute_transition(current_mute_state),
{
    match current_mute_state {
        MuteState::MutedByUs => MuteTransitionDecision {
            next_state: MuteState::NotMuting,
            action: MuteTransitionAction::SetMuted(false),
        },
        MuteState::NotMuting | MuteState::AudioWasAlreadyMutedByUser => MuteTransitionDecision {
            next_state: MuteState::NotMuting,
            action: MuteTransitionAction::NoOp,
        },
    }
}

/// Muting twice is muting once: a manager that has taken the step of muting
/// takes no further step when asked again, whatever the audio does meanwhile.
pub proof fn lemma_mute_is_idempotent(
    current_mute_state: MuteState,
    audio_is_currently_muted: bool,
    audio_is_muted_later: bool,
)
    ensures
        mute_transition(
            mute_transition(current_mute_state, audio_is_currently_muted).next_state,
            audio_is_muted_later,
        ) == (MuteTransitionDecision {
            next_state: mute_transition(current_mute_state, audio_is_currently_muted).next_state,
            action: MuteTransitionAction::NoOp,
        }),
{
}

/// Muting and then unmuting never leaves audio muted that played before, and
/// never unmutes audio that the user had muted.
pub proof fn lemma_unmute_undoes_mute(audio_is_currently_muted: bool)
    ensures
        unmute_transition(
            mute_transition(MuteState::NotMuting, audio_is_currently_muted).next_state,
        ) == (MuteTransitionDecision {
            next_state: MuteState::NotMuting,
            action: if audio_is_currently_muted {
                MuteTransitionAction::NoOp
            } else {
                MuteTransitionAction::SetMuted(false)
            },
        }),
{
}

} // verus!
