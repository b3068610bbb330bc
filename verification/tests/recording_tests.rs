use tambourine::active_app_context::windows::window_title_length;
use tambourine::active_app_context::windows::ComApartmentInitializationGuard;
use tambourine::active_app_context::windows::RPC_E_CHANGED_MODE;
use tambourine::audio::SoundType;
use tambourine::audio_mute::macos::MacOSAudioController;
use tambourine::audio_mute::AudioControlError;
use tambourine::config_sync::ConfigEndpoint;
use tambourine::config_sync::ConfigSyncState;
use tambourine::config_sync::CLIENT_UUID_HEADER;
use tambourine::events::EventName;
use tambourine::recording::handle_recording_shortcut;
use tambourine::recording::recording_effects;
use tambourine::recording::recording_preferences;
use tambourine::recording::RecordingEffect;
use tambourine::recording::RecordingFlags;
use tambourine::recording::RecordingShortcut;
use tambourine::recording::RecordingTransition;
use tambourine::recording::ShortcutKeyState;
use tambourine::recording::ShortcutOutcome;
use tambourine::settings::AppSettings;

fn flags(is_recording: bool, ptt_key_held: bool) -> RecordingFlags {
    RecordingFlags { is_recording, ptt_key_held }
}

#[test]
fn toggle_shortcut_acts_on_press_only() {
    assert_eq!(
        handle_recording_shortcut(
            flags(false, false),
            RecordingShortcut::Toggle,
            ShortcutKeyState::Pressed
        ),
        ShortcutOutcome {
            flags: flags(true, false),
            transition: Some(RecordingTransition::Start)
        }
    );
    assert_eq!(
        handle_recording_shortcut(
            flags(true, false),
            RecordingShortcut::Toggle,
            ShortcutKeyState::Pressed
        ),
        ShortcutOutcome {
            flags: flags(false, false),
            transition: Some(RecordingTransition::Stop)
        }
    );
    for state in [flags(false, false), flags(true, false), flags(true, true), flags(false, true)] {
        assert_eq!(
            handle_recording_shortcut(state, RecordingShortcut::Toggle, ShortcutKeyState::Released),
            ShortcutOutcome { flags: state, transition: None }
        );
    }
    assert_eq!(
        handle_recording_shortcut(
            flags(true, true),
            RecordingShortcut::Toggle,
            ShortcutKeyState::Pressed
        ),
        ShortcutOutcome {
            flags: flags(false, true),
            transition: Some(RecordingTransition::Stop)
        }
    );
}

#[test]
fn hold_shortcut_records_while_held() {
    let down = handle_recording_shortcut(
        flags(false, false),
        RecordingShortcut::Hold,
        ShortcutKeyState::Pressed,
    );
    assert_eq!(
        down,
        ShortcutOutcome { flags: flags(true, true), transition: Some(RecordingTransition::Start) }
    );
    let repeat =
        handle_recording_shortcut(down.flags, RecordingShortcut::Hold, ShortcutKeyState::Pressed);
    assert_eq!(repeat, ShortcutOutcome { flags: flags(true, true), transition: None });
    let up =
        handle_recording_shortcut(repeat.flags, RecordingShortcut::Hold, ShortcutKeyState::Released);
    assert_eq!(
        up,
        ShortcutOutcome { flags: flags(false, false), transition: Some(RecordingTransition::Stop) }
    );
    let stray =
        handle_recording_shortcut(up.flags, RecordingShortcut::Hold, ShortcutKeyState::Released);
    assert_eq!(stray, ShortcutOutcome { flags: flags(false, false), transition: None });
}

#[test]
fn effects_come_in_the_order_in_which_they_are_heard() {
    assert_eq!(
        recording_effects(RecordingTransition::Start, true, true),
        vec![
            RecordingEffect::PlaySound(SoundType::RecordingStart),
            RecordingEffect::Wait(150),
            RecordingEffect::MuteAudio,
            RecordingEffect::Emit(EventName::RecordingStart),
        ]
    );
    assert_eq!(
        recording_effects(RecordingTransition::Stop, true, true),
        vec![
            RecordingEffect::UnmuteAudio,
            RecordingEffect::PlaySound(SoundType::RecordingStop),
            RecordingEffect::Emit(EventName::RecordingStop),
        ]
    );
    assert_eq!(
        recording_effects(RecordingTransition::Start, false, true),
        vec![RecordingEffect::MuteAudio, RecordingEffect::Emit(EventName::RecordingStart)]
    );
    assert_eq!(
        recording_effects(RecordingTransition::Start, true, false),
        vec![
            RecordingEffect::PlaySound(SoundType::RecordingStart),
            RecordingEffect::Wait(150),
            RecordingEffect::Emit(EventName::RecordingStart),
        ]
    );
    assert_eq!(
        recording_effects(RecordingTransition::Stop, false, false),
        vec![RecordingEffect::Emit(EventName::RecordingStop)]
    );
    assert_eq!(
        recording_effects(RecordingTransition::Start, false, false),
        vec![RecordingEffect::Emit(EventName::RecordingStart)]
    );
}

#[test]
fn preferences_default_to_sound_and_no_muting() {
    assert_eq!(recording_preferences(None), (true, false));
    let mut settings = AppSettings::default();
    assert_eq!(recording_preferences(Some(&settings)), (true, false));
    settings.sound_enabled = false;
    settings.auto_mute_audio = true;
    assert_eq!(recording_preferences(Some(&settings)), (false, true));
}

#[test]
fn config_sync_knows_where_to_send_settings() {
    let mut sync = ConfigSyncState::new();
    assert!(!sync.is_connected());
    assert!(sync.sync_request(ConfigEndpoint::PromptSections).is_none());
    sync.set_connected("http://127.0.0.1:8765".to_string(), "uuid-1".to_string());
    assert!(sync.is_connected());
    for (endpoint, url) in [
        (ConfigEndpoint::PromptSections, "http://127.0.0.1:8765/api/config/prompts"),
        (ConfigEndpoint::SttTimeout, "http://127.0.0.1:8765/api/config/stt-timeout"),
        (ConfigEndpoint::LlmFormatting, "http://127.0.0.1:8765/api/config/llm-formatting"),
    ] {
        let request = sync.sync_request(endpoint).expect("a server is connected");
        assert_eq!(request.endpoint_url, url);
        assert_eq!(request.client_uuid, "uuid-1");
    }
    assert_eq!(ConfigEndpoint::SttTimeout.as_path(), "/api/config/stt-timeout");
    assert_eq!(CLIENT_UUID_HEADER, "X-Client-UUID");
    sync.set_connected("https://example.com".to_string(), "uuid-2".to_string());
    assert_eq!(
        sync.sync_request(ConfigEndpoint::PromptSections).map(|request| request.client_uuid),
        Some("uuid-2".to_string())
    );
    sync.set_disconnected();
    assert!(!sync.is_connected());
    assert!(sync.sync_request(ConfigEndpoint::LlmFormatting).is_none());
}

fn message_of(error: AudioControlError) -> String {
    error.to_string()
}

#[test]
fn core_audio_answers_are_read_by_their_status() {
    let controller = MacOSAudioController::new(0, 73).expect("a device was given");
    assert_eq!(controller.device_id(), 73);
    assert_eq!(
        MacOSAudioController::new(-50, 73).map_err(message_of),
        Err("Audio init failed: Failed to get default output device (OSStatus: -50)".to_string())
    );
    assert_eq!(
        MacOSAudioController::new(560947818, 0).map_err(message_of),
        Err("Audio init failed: Failed to get default output device (OSStatus: 560947818)"
            .to_string())
    );
    assert_eq!(
        MacOSAudioController::new(0, 0).map_err(message_of),
        Err("Audio init failed: No default output device found".to_string())
    );
    assert_eq!(MacOSAudioController::get_u32_property(0, 5).map_err(message_of), Ok(5));
    assert_eq!(
        MacOSAudioController::get_u32_property(2003332927, 5).map_err(message_of),
        Err("Failed to get audio property: OSStatus: 2003332927".to_string())
    );
    assert_eq!(MacOSAudioController::set_u32_property(0).map_err(message_of), Ok(()));
    assert_eq!(
        MacOSAudioController::set_u32_property(i32::MIN).map_err(message_of),
        Err("Failed to set audio property: OSStatus: -2147483648".to_string())
    );
    assert_eq!(MacOSAudioController::is_muted(0, 0).map_err(message_of), Ok(false));
    assert_eq!(MacOSAudioController::is_muted(0, 1).map_err(message_of), Ok(true));
    assert_eq!(MacOSAudioController::is_muted(0, 2).map_err(message_of), Ok(true));
    assert_eq!(
        MacOSAudioController::is_muted(-1, 1).map_err(message_of),
        Err("Failed to get audio property: OSStatus: -1".to_string())
    );
    assert_eq!(MacOSAudioController::mute_property_value(true), 1);
    assert_eq!(MacOSAudioController::mute_property_value(false), 0);
}

#[test]
fn com_is_used_when_granted_or_already_there() {
    assert_eq!(RPC_E_CHANGED_MODE as u32, 0x8001_0106);
    assert_eq!(
        ComApartmentInitializationGuard::initialize_single_threaded(0),
        Some(ComApartmentInitializationGuard { should_call_co_uninitialize_on_drop: true })
    );
    assert_eq!(
        ComApartmentInitializationGuard::initialize_single_threaded(1),
        Some(ComApartmentInitializationGuard { should_call_co_uninitialize_on_drop: true })
    );
    assert_eq!(
        ComApartmentInitializationGuard::initialize_single_threaded(RPC_E_CHANGED_MODE),
        Some(ComApartmentInitializationGuard { should_call_co_uninitialize_on_drop: false })
    );
    assert_eq!(
        ComApartmentInitializationGuard::initialize_single_threaded(0x8000_4005u32 as i32),
        None
    );
    assert_eq!(ComApartmentInitializationGuard::initialize_single_threaded(-1), None);
}

#[test]
fn window_title_is_there_only_when_something_was_written() {
    assert_eq!(window_title_length(0, 512), None);
    assert_eq!(window_title_length(-1, 512), None);
    assert_eq!(window_title_length(1, 512), Some(1));
    assert_eq!(window_title_length(512, 512), Some(512));
    assert_eq!(window_title_length(513, 512), None);
}
