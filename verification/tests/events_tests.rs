use tambourine::audio::playback_wait_millis;
use tambourine::audio::SoundType;
use tambourine::events::ConfigResponse;
use tambourine::events::ConfigSetting;
use tambourine::events::EventName;
use tambourine::state::ShortcutErrors;

#[test]
fn event_names_are_the_ones_that_the_windows_listen_for() {
    assert_eq!(EventName::RecordingStart.as_str(), "recording-start");
    assert_eq!(EventName::RecordingStop.as_str(), "recording-stop");
    assert_eq!(EventName::PrepareRecording.as_str(), "prepare-recording");
    assert_eq!(EventName::ConfigResponse.as_str(), "config-response");
    assert_eq!(EventName::RequestDisconnect.as_str(), "request-disconnect");
    assert_eq!(EventName::SettingsChanged.as_str(), "settings-changed");
    assert_eq!(EventName::ReconnectRequest.as_str(), "request-reconnect");
    assert_eq!(EventName::ConnectionState.as_str(), "connection-state-changed");
    assert_eq!(EventName::ReconnectStarted.as_str(), "reconnect-started");
    assert_eq!(EventName::ReconnectResult.as_str(), "reconnect-result");
    assert_eq!(EventName::HistoryChanged.as_str(), "history-changed");
    assert_eq!(EventName::NativeAudioData.as_str(), "native-audio-data");
    assert_eq!(
        EventName::ActiveAppContextChanged.as_str(),
        "active-app-context-changed"
    );
}

#[test]
fn config_setting_names_are_in_kebab_case() {
    assert_eq!(ConfigSetting::PromptSections.as_str(), "prompt-sections");
    assert_eq!(ConfigSetting::SttTimeout.as_str(), "stt-timeout");
    assert_eq!(ConfigSetting::SttProvider.as_str(), "stt-provider");
    assert_eq!(ConfigSetting::LlmProvider.as_str(), "llm-provider");
}

#[test]
fn config_responses_carry_a_value_or_an_error() {
    match ConfigResponse::updated(ConfigSetting::SttTimeout, 3u32) {
        ConfigResponse::Updated { setting, value } => {
            assert_eq!(setting, ConfigSetting::SttTimeout);
            assert_eq!(value, 3);
        }
        ConfigResponse::Error { .. } => panic!("an update was made"),
    }
    match ConfigResponse::<u32>::error(ConfigSetting::LlmProvider, "offline".to_string()) {
        ConfigResponse::Error { setting, error } => {
            assert_eq!(setting, ConfigSetting::LlmProvider);
            assert_eq!(error, "offline");
        }
        ConfigResponse::Updated { .. } => panic!("an error was made"),
    }
}

#[test]
fn shortcut_errors_report_any_failed_shortcut() {
    assert!(!ShortcutErrors::default().has_any_error());
    let toggle = ShortcutErrors {
        toggle_error: Some("taken".to_string()),
        ..ShortcutErrors::default()
    };
    assert!(toggle.has_any_error());
    let hold = ShortcutErrors {
        hold_error: Some("taken".to_string()),
        ..ShortcutErrors::default()
    };
    assert!(hold.has_any_error());
    let paste_last = ShortcutErrors {
        paste_last_error: Some("taken".to_string()),
        ..ShortcutErrors::default()
    };
    assert!(paste_last.has_any_error());
    assert!(paste_last.clone().has_any_error());
}

#[test]
fn a_sound_is_waited_for_with_a_tail() {
    assert_eq!(playback_wait_millis(None), 550);
    assert_eq!(playback_wait_millis(Some(0)), 50);
    assert_eq!(playback_wait_millis(Some(1200)), 1250);
    assert_ne!(SoundType::RecordingStart, SoundType::RecordingStop);
}
