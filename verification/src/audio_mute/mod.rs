//! Muting the system's audio while a recording runs.
//!
//! The system is reached through the trait `SystemAudioControl`, so that the
//! way of muting can be exchanged. The manager remembers who muted the audio:
//! what the user has muted stays muted when the recording ends.

use vstd::prelude::*;

pub mod macos;
pub mod shared;

verus! {

/// Why the system's audio could not be controlled.
#[derive(Debug)]
pub enum AudioControlError {
    /// The platform's audio interface could not be set up.
    InitializationFailed(String),
    /// A property of the audio device could not be read.
    GetPropertyFailed(String),
    /// A property of the audio device could not be written.
    SetPropertyFailed(String),
    /// The platform is not supported.
    NotSupported,
}

/// An `AudioControlError` as plain text.
pub enum AudioControlErrorView {
    InitializationFailed(Seq<char>),
    GetPropertyFailed(Seq<char>),
    SetPropertyFailed(Seq<char>),
    NotSupported,
}

impl View for AudioControlError {
    type V = AudioControlErrorView;

    open spec fn view(&self) -> AudioControlErrorView {
        match self {
            AudioControlError::InitializationFailed(msg) => {
                AudioControlErrorView::InitializationFailed(msg@)
            },
            AudioControlError::GetPropertyFailed(msg) => AudioControlErrorView::GetPropertyFailed(
                msg@,
            ),
            AudioControlError::SetPropertyFailed(msg) => AudioControlErrorView::SetPropertyFailed(
                msg@,
            ),
            AudioControlError::NotSupported => AudioControlErrorView::NotSupported,
        }
    }
}

impl AudioControlError {
    /// The error in words.
    pub open spec fn message(self) -> Seq<char> {
        match self {
            AudioControlError::InitializationFailed(msg) => "Audio init failed: "@ + msg@,
            AudioControlError::GetPropertyFailed(msg) => "Failed to get audio property: "@ + msg@,
            AudioControlError::SetPropertyFailed(msg) => "Failed to set audio property: "@ + msg@,
            AudioControlError::NotSupported => "Audio control not supported on this platform"@,
        }
    }

    /// The error in words.
    pub fn to_string(&self) -> (r: String)
        ensures
            r@ == self.message(),
    {
        match self {
            AudioControlError::InitializationFailed(msg) => String::from_str(
                "Audio init failed: ",
            ).concat(msg.as_str()),
            AudioControlError::GetPropertyFailed(msg) => String::from_str(
                "Failed to get audio property: ",
            ).concat(msg.as_str()),
            AudioControlError::SetPropertyFailed(msg) => String::from_str(
                "Failed to set audio property: ",
            ).concat(msg.as_str()),
            AudioControlError::NotSupported => String::from_str(
                "Audio control not supported on this platform",
            ),
        }
    }
}

/// The control of the system's mute switch.
pub trait SystemAudioControl: Send + Sync {
    /// Whether the system's audio is muted.
    fn is_muted(&self) -> Result<bool, AudioControlError>;

    /// Mutes or unmutes the system's audio.
    fn set_muted(&self, muted: bool) -> Result<(), AudioControlError>;
}

/// The systems that the application runs on.
#[derive(Debug, Clone, Copy, PartialEq, Eq, Structural)]
pub enum Platform {
    Windows,
    MacOs,
    Other,
}

/// Whether the audio of a platform can be muted.
pub fn is_supported(platform: Platform) -> (r: bool)
    ensures
        r == (platform == Platform::Windows || platform == Platform::MacOs),
{
    match platform {
        Platform::Windows | Platform::MacOs => true,
        Platform::Other => false,
    }
}

/// Who has muted the audio.
#[derive(Debug, Clone, Copy, PartialEq, Eq, Structural)]
pub enum MuteState {
    /// The manager is not muting.
    NotMuting,
    /// The manager muted audio that played.
    MutedByUs,
    /// The manager was asked to mute, and the user had muted the audio
    /// already.
    AudioWasAlreadyMutedByUser,
}

impl Default for MuteState {
    fn default() -> (r: Self)
        ensures
            r == MuteState::NotMuting,
    {
        MuteState::NotMuting
    }
}

impl<T: SystemAudioControl + ?Sized> SystemAudioControl for Box<T> {
    /// Whether the system's audio is muted, as the control in the box tells.
    fn is_muted(&self) -> Result<bool, AudioControlError> {
        (**self).is_muted()
    }

    /// Mutes or unmutes the system's audio through the control in the box.
    fn set_muted(&self, muted: bool) -> Result<(), AudioControlError> {
        (**self).set_muted(muted)
    }
}

/// Mutes the system's audio for the time of a recording and unmutes it after.
/// `C` is the control through which the manager reaches the audio: a boxed
/// `SystemAudioControl` of any kind, unless another type is named.
pub struct AudioMuteManager<C = Box<dyn SystemAudioControl>> {
    controller: C,
    state: MuteState,
}

impl<C> AudioMuteManager<C> {
    /// Who has muted the audio.
    pub closed spec fn state(&self) -> MuteState {
        self.state
    }

    /// What the manager reaches the system's audio through.
    pub closed spec fn controller(&self) -> C {
        self.controller
    }
}

impl AudioMuteManager<Box<dyn SystemAudioControl>> {
    /// Makes a manager of the controller that the platform gave, where it gave
    /// one.
    pub fn new(controller: Result<Box<dyn SystemAudioControl>, AudioControlError>) -> (r: Option<
        Self,
    >)
        ensures
            match controller {
                Ok(given) => r matches Some(manager) && manager.controller() == given
                    && manager.state() == MuteState::NotMuting,
                Err(_) => r is None,
            },
    {
        match controller {
            Ok(controller) => {
                let ghost given = controller;
                let manager = AudioMuteManager::from_controller(controller);
                assert(manager.controller() == given);
                Some(manager)
            },
            Err(_) => None,
        }
    }
}

impl<C: SystemAudioControl> AudioMuteManager<C> {
    /// Makes a manager that controls the audio through `controller` and is
    /// not muting.
    pub fn from_controller(controller: C) -> (r: Self)
        ensures
            r.controller() == controller,
            r.state() == MuteState::NotMuting,
    {
        AudioMuteManager { controller, state: MuteState::NotMuting }
    }

    /// Who has muted the audio.
    pub fn mute_state(&self) -> (r: MuteState)
        ensures
            r == self.state(),
    {
        self.state
    }

    /// Carries a decision out: sets the system's mute switch where the
    /// decision asks for it, and takes the decision's state once that is
    /// done. Where the switch cannot be set, the state stays as it was.
    fn apply_mute_transition_decision(
        &mut self,
        transition_decision: shared::MuteTransitionDecision,
    ) -> (r: Result<(), AudioControlError>)
        ensures
            final(self).controller() == old(self).controller(),
            r is Ok ==> final(self).state() == transition_decision.next_state,
            r is Err ==> final(self).state() == old(self).state(),
            transition_decision.action == shared::MuteTransitionAction::NoOp ==> r is Ok,
    {
        match transition_decision.action {
            shared::MuteTransitionAction::SetMuted(next_mute_value) => {
                match self.controller.set_muted(next_mute_value) {
                    Ok(()) => {},
                    Err(error) => {
                        return Err(error);
                    },
                }
            },
            shared::MuteTransitionAction::NoOp => {},
        }
        self.state = transition_decision.next_state;
        Ok(())
    }

    /// Mutes the system's audio for a recording.
    ///
    /// A manager that is muting already does nothing. Otherwise the system is
    /// asked whether the audio is muted, and `shared::audio_counts_as_muted`
    /// reads its answer. The step is the one that `shared::mute_transition`
    /// gives for that. It fails only where the system refuses to mute, and the manager
    /// is then not muting.
    pub fn mute(&mut self) -> (r: Result<(), AudioControlError>)
        ensures
            final(self).controller() == old(self).controller(),
            old(self).state() != MuteState::NotMuting ==> r is Ok && final(self).state() == old(
                self,
            ).state(),
            old(self).state() == MuteState::NotMuting ==> match r {
                Ok(_) => exists|audio_is_muted: bool|
                    final(self).state() == (#[trigger] shared::mute_transition(
                        MuteState::NotMuting,
                        audio_is_muted,
                    )).next_state,
                Err(_) => final(self).state() == MuteState::NotMuting,
            },
    {
        if self.state != MuteState::NotMuting {
            return Ok(());
        }
        let query = self.controller.is_muted();
        let audio_is_already_muted = shared::audio_counts_as_muted(&query);
        let transition_decision = shared::decide_mute_transition(
            self.state,
            audio_is_already_muted,
        );
        self.apply_mute_transition_decision(transition_decision)
    }

    /// Ends the muting of a recording.
    ///
    /// The step is the one that `shared::unmute_transition` gives: audio that
    /// the manager muted is unmuted, audio that the user had muted is left
    /// muted, and the manager stops muting. It fails only where the system
    /// refuses to unmute, and the manager then still holds the audio muted.
    pub fn unmute(&mut self) -> (r: Result<(), AudioControlError>)
        ensures
            final(self).controller() == old(self).controller(),
            r is Ok ==> final(self).state() == MuteState::NotMuting,
            r is Err ==> old(self).state() == MuteState::MutedByUs && final(self).state()
                == MuteState::MutedByUs,
    {
        let transition_decision = shared::decide_unmute_transition(self.state);
        self.apply_mute_transition_decision(transition_decision)
    }

    /// Gives the audio back when the manager is no longer needed: audio that
    /// the manager muted is unmuted, as `unmute` does it, and nothing is done
    /// where the manager did not mute. It fails only where the system refuses
    /// to unmute, and the manager then still holds the audio muted.
    pub fn release(&mut self) -> (r: Result<(), AudioControlError>)
        ensures
            final(self).controller() == old(self).controller(),
            old(self).state() != MuteState::MutedByUs ==> r is Ok && final(self).state() == old(
                self,
            ).state(),
            old(self).state() == MuteState::MutedByUs ==> match r {
                Ok(_) => final(self).state() == MuteState::NotMuting,
                Err(_) => final(self).state() == MuteState::MutedByUs,
            },
    {
        if self.state == MuteState::MutedByUs {
            self.unmute()
        } else {
            Ok(())
        }
    }
}

} // verus!
