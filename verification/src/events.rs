//! The names of the events that the windows of the application send one
//! another, and what some of them carry.

use crate::text::clone_opt_string;
use vstd::prelude::*;

verus! {

/// The events of the application.
#[derive(Debug, Clone, Copy, PartialEq, Eq, Structural)]
pub enum EventName {
    /// Recording started.
    RecordingStart,
    /// Recording stopped.
    RecordingStop,
    /// Recording is about to start, so the microphone may warm up.
    PrepareRecording,
    /// The answer to a change of configuration.
    ConfigResponse,
    /// The application quits, so the overlay is to disconnect.
    RequestDisconnect,
    /// Settings changed and are to be read again.
    SettingsChanged,
    /// The overlay is asked to connect again.
    ReconnectRequest,
    /// The state of the connection changed.
    ConnectionState,
    /// A new connection is being made.
    ReconnectStarted,
    /// How the new connection went.
    ReconnectResult,
    /// The history changed.
    HistoryChanged,
    /// Audio data from the microphone.
    NativeAudioData,
    /// The input focus changed.
    ActiveAppContextChanged,
}

impl EventName {
    /// The name under which the event is sent.
    pub open spec fn name(self) -> Seq<char> {
        match self {
            EventName::RecordingStart => "recording-start"@,
            EventName::RecordingStop => "recording-stop"@,
            EventName::PrepareRecording => "prepare-recording"@,
            EventName::ConfigResponse => "config-response"@,
            EventName::RequestDisconnect => "request-disconnect"@,
            EventName::SettingsChanged => "settings-changed"@,
            EventName::ReconnectRequest => "request-reconnect"@,
            EventName::ConnectionState => "connection-state-changed"@,
            EventName::ReconnectStarted => "reconnect-started"@,
            EventName::ReconnectResult => "reconnect-result"@,
            EventName::HistoryChanged => "history-changed"@,
            EventName::NativeAudioData => "native-audio-data"@,
            EventName::ActiveAppContextChanged => "active-app-context-changed"@,
        }
    }

    /// The name under which the event is sent.
    #[must_use]
    pub fn as_str(self) -> (r: &'static str)
        ensures
            r@ == self.name(),
    {
        match self {
            EventName::RecordingStart => "recording-start",
            EventName::RecordingStop => "recording-stop",
            EventName::PrepareRecording => "prepare-recording",
            EventName::ConfigResponse => "config-response",
            EventName::RequestDisconnect => "request-disconnect",
            EventName::SettingsChanged => "settings-changed",
            EventName::ReconnectRequest => "request-reconnect",
            EventName::ConnectionState => "connection-state-changed",
            EventName::ReconnectStarted => "reconnect-started",
            EventName::ReconnectResult => "reconnect-result",
            EventName::HistoryChanged => "history-changed",
            EventName::NativeAudioData => "native-audio-data",
            EventName::ActiveAppContextChanged => "active-app-context-changed",
        }
    }
}

/// The settings whose change is answered by a `ConfigResponse` event.
#[derive(Debug, Clone, Copy, PartialEq, Eq, Structural)]
pub enum ConfigSetting {
    PromptSections,
    SttTimeout,
    SttProvider,
    LlmProvider,
}

impl ConfigSetting {
    /// The name under which the setting stands in an answer.
    pub open spec fn name(self) -> Seq<char> {
        match self {
            ConfigSetting::PromptSections => "prompt-sections"@,
            ConfigSetting::SttTimeout => "stt-timeout"@,
            ConfigSetting::SttProvider => "stt-provider"@,
            ConfigSetting::LlmProvider => "llm-provider"@,
        }
    }

    /// The name under which the setting stands in an answer.
    #[must_use]
    pub fn as_str(self) -> (r: &'static str)
        ensures
            r@ == self.name(),
    {
        match self {
            ConfigSetting::PromptSections => "prompt-sections",
            ConfigSetting::SttTimeout => "stt-timeout",
            ConfigSetting::SttProvider => "stt-provider",
            ConfigSetting::LlmProvider => "llm-provider",
        }
    }
}

/// The answer to a change of configuration: the new value, or why the change
/// failed.
#[derive(Debug)]
pub enum ConfigResponse<T> {
    Updated { setting: ConfigSetting, value: T },
    Error { setting: ConfigSetting, error: String },
}

impl<T> ConfigResponse<T> {
    /// The answer that a setting has the value `value` now.
    pub fn updated(setting: ConfigSetting, value: T) -> (r: Self)
        ensures
            r == (ConfigResponse::Updated { setting, value }),
    {
        ConfigResponse::Updated { setting, value }
    }

    /// The answer that the change of a setting failed.
    pub fn error(setting: ConfigSetting, error: String) -> (r: ConfigResponse<()>)
        ensures
            r == (ConfigResponse::<()>::Error { setting, error }),
    {
        ConfigResponse::Error { setting, error }
    }
}

/// What a `ConnectionState` event carries.
#[derive(Debug)]
pub struct ConnectionStatePayload {
    pub state: String,
}

impl Clone for ConnectionStatePayload {
    fn clone(&self) -> (r: Self)
        ensures
            r == *self,
    {
        ConnectionStatePayload { state: self.state.clone() }
    }
}

/// What a `ReconnectResult` event carries.
#[derive(Debug)]
pub struct ReconnectResultPayload {
    pub success: bool,
    pub error: Option<String>,
}

impl Clone for ReconnectResultPayload {
    fn clone(&self) -> (r: Self)
        ensures
            r == *self,
    {
        ReconnectResultPayload { success: self.success, error: clone_opt_string(&self.error) }
    }
}

} // verus!
