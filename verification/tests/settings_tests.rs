use tambourine::settings::default_hold_hotkey;
use tambourine::settings::default_sound_enabled;
use tambourine::settings::default_toggle_hotkey;
use tambourine::settings::AppSettings;
use tambourine::settings::CleanupPromptSections;
use tambourine::settings::HotkeyConfig;
use tambourine::settings::PromptSection;
use tambourine::settings::SettingsManager;

fn hotkey(modifiers: &[&str], key: &str) -> HotkeyConfig {
    HotkeyConfig {
        modifiers: modifiers.iter().map(|modifier| modifier.to_string()).collect(),
        key: key.to_string(),
    }
}

#[test]
fn default_hotkeys_are_ctrl_alt_space_and_ctrl_alt_period() {
    assert_eq!(default_toggle_hotkey(), hotkey(&["ctrl", "alt"], "Space"));
    assert_eq!(default_hold_hotkey(), hotkey(&["ctrl", "alt"], "Period"));
    assert_eq!(HotkeyConfig::default(), hotkey(&["ctrl", "alt"], "Space"));
    assert!(default_sound_enabled());
}

#[test]
fn hotkeys_compare_by_modifiers_in_order_and_key() {
    assert_eq!(hotkey(&["ctrl", "alt"], "Space"), hotkey(&["ctrl", "alt"], "Space"));
    assert_ne!(hotkey(&["ctrl", "alt"], "Space"), hotkey(&["alt", "ctrl"], "Space"));
    assert_ne!(hotkey(&["ctrl", "alt"], "Space"), hotkey(&["ctrl"], "Space"));
    assert_ne!(hotkey(&["ctrl", "alt"], "Space"), hotkey(&["ctrl", "alt"], "space"));
    assert_ne!(hotkey(&[], "Space"), hotkey(&["ctrl"], "Space"));
    assert_eq!(hotkey(&[], "A"), hotkey(&[], "A"));
    assert_eq!(hotkey(&["ctrl"], "A").clone(), hotkey(&["ctrl"], "A"));
}

#[test]
fn default_prompt_sections_switch_the_dictionary_off() {
    assert_eq!(PromptSection::default(), PromptSection { enabled: true, content: None });
    let sections = CleanupPromptSections::default();
    assert_eq!(sections.main, PromptSection { enabled: true, content: None });
    assert_eq!(sections.advanced, PromptSection { enabled: true, content: None });
    assert_eq!(sections.dictionary, PromptSection { enabled: false, content: None });
    assert_eq!(sections.clone(), sections);
    assert_ne!(
        PromptSection { enabled: true, content: Some("x".to_string()) },
        PromptSection { enabled: true, content: None }
    );
}

fn assert_default(settings: &AppSettings) {
    assert_eq!(settings.toggle_hotkey, hotkey(&["ctrl", "alt"], "Space"));
    assert_eq!(settings.hold_hotkey, hotkey(&["ctrl", "alt"], "Period"));
    assert_eq!(settings.selected_mic_id, None);
    assert!(settings.sound_enabled);
    assert_eq!(settings.cleanup_prompt_sections, None);
    assert_eq!(settings.stt_provider, None);
    assert_eq!(settings.llm_provider, None);
    assert!(!settings.auto_mute_audio);
}

#[test]
fn default_settings_are_those_of_a_fresh_installation() {
    assert_default(&AppSettings::default());
    assert_default(&SettingsManager::new(None).get());
}

#[test]
fn manager_starts_from_the_loaded_settings() {
    let mut loaded = AppSettings::default();
    loaded.sound_enabled = false;
    loaded.stt_provider = Some("deepgram".to_string());
    let manager = SettingsManager::new(Some(loaded));
    let settings = manager.get();
    assert!(!settings.sound_enabled);
    assert_eq!(settings.stt_provider.as_deref(), Some("deepgram"));
    assert_eq!(settings.toggle_hotkey, hotkey(&["ctrl", "alt"], "Space"));
}

#[test]
fn each_update_changes_its_own_field_only() {
    let mut manager = SettingsManager::new(None);

    manager.update_toggle_hotkey(hotkey(&["ctrl", "shift"], "A"));
    assert_eq!(manager.get().toggle_hotkey, hotkey(&["ctrl", "shift"], "A"));
    assert_eq!(manager.get().hold_hotkey, hotkey(&["ctrl", "alt"], "Period"));

    manager.update_hold_hotkey(hotkey(&["alt"], "Backquote"));
    assert_eq!(manager.get().hold_hotkey, hotkey(&["alt"], "Backquote"));
    assert_eq!(manager.get().toggle_hotkey, hotkey(&["ctrl", "shift"], "A"));

    manager.update_selected_mic(Some("usb-mic".to_string()));
    assert_eq!(manager.get().selected_mic_id.as_deref(), Some("usb-mic"));

    manager.update_sound_enabled(false);
    assert!(!manager.get().sound_enabled);

    let mut sections = CleanupPromptSections::default();
    sections.dictionary = PromptSection { enabled: true, content: Some("Verus".to_string()) };
    manager.update_cleanup_prompt_sections(Some(sections.clone()));
    assert_eq!(manager.get().cleanup_prompt_sections, Some(sections));

    manager.update_stt_provider(Some("whisper".to_string()));
    manager.update_llm_provider(Some("gemma".to_string()));
    manager.update_auto_mute_audio(true);

    let settings = manager.get();
    assert_eq!(settings.toggle_hotkey, hotkey(&["ctrl", "shift"], "A"));
    assert_eq!(settings.hold_hotkey, hotkey(&["alt"], "Backquote"));
    assert_eq!(settings.selected_mic_id.as_deref(), Some("usb-mic"));
    assert!(!settings.sound_enabled);
    assert_eq!(settings.stt_provider.as_deref(), Some("whisper"));
    assert_eq!(settings.llm_provider.as_deref(), Some("gemma"));
    assert!(settings.auto_mute_audio);

    manager.update_selected_mic(None);
    manager.update_cleanup_prompt_sections(None);
    assert_eq!(manager.get().selected_mic_id, None);
    assert_eq!(manager.get().cleanup_prompt_sections, None);
    assert_eq!(manager.get().stt_provider.as_deref(), Some("whisper"));

    manager.update(AppSettings::default());
    assert_default(&manager.get());
}
