//! The settings of the application and the manager that holds them.

use crate::text::clone_opt_string;
use crate::text::opt_string_eq;
use crate::text::opt_text;
use vstd::prelude::*;
use vstd::std_specs::cmp::PartialEqSpecImpl;

verus! {

/// The characters of each string of a list.
pub open spec fn texts(strings: Seq<String>) -> Seq<Seq<char>> {
    strings.map_values(|s: String| s@)
}

/// Copies a list of strings.
pub fn clone_strings(strings: &Vec<String>) -> (r: Vec<String>)
    ensures
        r@ == strings@,
{
    let mut copy: Vec<String> = Vec::new();
    let mut i: usize = 0;
    while i < strings.len()
        invariant
            i <= strings.len(),
            copy@ == strings@.take(i as int),
        decreases strings.len() - i,
    {
        copy.push(strings[i].clone());
        assert(copy@ =~= strings@.take(i + 1));
        i = i + 1;
    }
    assert(strings@.take(strings.len() as int) =~= strings@);
    copy
}

/// Tests whether two lists of strings hold the same texts in the same order.
pub fn strings_eq(a: &Vec<String>, b: &Vec<String>) -> (r: bool)
    ensures
        r == (texts(a@) == texts(b@)),
{
    if a.len() != b.len() {
        assert(texts(a@).len() != texts(b@).len());
        return false;
    }
    let mut i: usize = 0;
    while i < a.len()
        invariant
            i <= a.len() == b.len(),
            forall|j: int| 0 <= j < i ==> a@[j]@ == b@[j]@,
        decreases a.len() - i,
    {
        if a[i] != b[i] {
            assert(texts(a@)[i as int] != texts(b@)[i as int]);
            return false;
        }
        i = i + 1;
    }
    assert(texts(a@) =~= texts(b@));
    true
}

/// A key with the modifiers that are held with it.
#[derive(Debug)]
pub struct HotkeyConfig {
    /// The modifier keys, such as `ctrl` and `alt`.
    pub modifiers: Vec<String>,
    /// The main key, such as `Space`.
    pub key: String,
}

/// A `HotkeyConfig` as plain text.
pub struct HotkeyConfigView {
    pub modifiers: Seq<Seq<char>>,
    pub key: Seq<char>,
}

impl View for HotkeyConfig {
    type V = HotkeyConfigView;

    open spec fn view(&self) -> HotkeyConfigView {
        HotkeyConfigView { modifiers: texts(self.modifiers@), key: self.key@ }
    }
}

/// The hotkey of `ctrl`, `alt` and `key`.
pub open spec fn ctrl_alt(key: Seq<char>) -> HotkeyConfigView {
    HotkeyConfigView { modifiers: seq!["ctrl"@, "alt"@], key }
}

fn ctrl_alt_hotkey(key: &str) -> (r: HotkeyConfig)
    ensures
        r@ == ctrl_alt(key@),
{
    let mut modifiers: Vec<String> = Vec::new();
    modifiers.push("ctrl".to_owned());
    modifiers.push("alt".to_owned());
    assert(texts(modifiers@) =~= seq!["ctrl"@, "alt"@]);
    HotkeyConfig { modifiers, key: key.to_owned() }
}

impl Default for HotkeyConfig {
    fn default() -> (r: Self)
        ensures
            r@ == ctrl_alt("Space"@),
    {
        ctrl_alt_hotkey("Space")
    }
}

impl Clone for HotkeyConfig {
    fn clone(&self) -> (r: Self)
        ensures
            r@ == self@,
    {
        HotkeyConfig { modifiers: clone_strings(&self.modifiers), key: self.key.clone() }
    }
}

impl PartialEq for HotkeyConfig {
    fn eq(&self, other: &Self) -> (r: bool) {
        strings_eq(&self.modifiers, &other.modifiers) && self.key == other.key
    }
}

impl PartialEqSpecImpl for HotkeyConfig {
    open spec fn obeys_eq_spec() -> bool {
        true
    }

    open spec fn eq_spec(&self, other: &Self) -> bool {
        self@ == other@
    }
}

/// One section of the prompt that cleans a dictation up.
#[derive(Debug)]
pub struct PromptSection {
    /// Whether the section is used.
    pub enabled: bool,
    /// The text of the section; the default text where there is none.
    pub content: Option<String>,
}

/// A `PromptSection` as plain text.
pub struct PromptSectionView {
    pub enabled: bool,
    pub content: Option<Seq<char>>,
}

impl View for PromptSection {
    type V = PromptSectionView;

    open spec fn view(&self) -> PromptSectionView {
        PromptSectionView { enabled: self.enabled, content: opt_text(self.content) }
    }
}

impl Default for PromptSection {
    fn default() -> (r: Self)
        ensures
            r@ == (PromptSectionView { enabled: true, content: None }),
    {
        PromptSection { enabled: true, content: None }
    }
}

impl Clone for PromptSection {
    fn clone(&self) -> (r: Self)
        ensures
            r == *self,
    {
        PromptSection { enabled: self.enabled, content: clone_opt_string(&self.content) }
    }
}

impl PartialEq for PromptSection {
    fn eq(&self, other: &Self) -> (r: bool) {
        self.enabled == other.enabled && opt_string_eq(&self.content, &other.content)
    }
}

impl PartialEqSpecImpl for PromptSection {
    open spec fn obeys_eq_spec() -> bool {
        true
    }

    open spec fn eq_spec(&self, other: &Self) -> bool {
        self@ == other@
    }
}

/// The sections of the prompt that cleans a dictation up.
#[derive(Debug)]
pub struct CleanupPromptSections {
    /// The core rules: punctuation and new lines.
    pub main: PromptSection,
    /// Corrections by backtracking and the formatting of lists.
    pub advanced: PromptSection,
    /// The personal dictionary.
    pub dictionary: PromptSection,
}

/// A `CleanupPromptSections` as plain text.
pub struct CleanupPromptSectionsView {
    pub main: PromptSectionView,
    pub advanced: PromptSectionView,
    pub dictionary: PromptSectionView,
}

impl View for CleanupPromptSections {
    type V = CleanupPromptSectionsView;

    open spec fn view(&self) -> CleanupPromptSectionsView {
        CleanupPromptSectionsView {
            main: self.main@,
            advanced: self.advanced@,
            dictionary: self.dictionary@,
        }
    }
}

impl Default for CleanupPromptSections {
    fn default() -> (r: Self)
        ensures
            r@ == (CleanupPromptSectionsView {
                main: PromptSectionView { enabled: true, content: None },
                advanced: PromptSectionView { enabled: true, content: None },
                dictionary: PromptSectionView { enabled: false, content: None },
            }),
    {
        CleanupPromptSections {
            main: PromptSection { enabled: true, content: None },
            advanced: PromptSection { enabled: true, content: None },
            dictionary: PromptSection { enabled: false, content: None },
        }
    }
}

impl Clone for CleanupPromptSections {
    fn clone(&self) -> (r: Self)
        ensures
            r == *self,
    {
        CleanupPromptSections {
            main: self.main.clone(),
            advanced: self.advanced.clone(),
            dictionary: self.dictionary.clone(),
        }
    }
}

impl PartialEq for CleanupPromptSections {
    fn eq(&self, other: &Self) -> (r: bool) {
        self.main == other.main && self.advanced == other.advanced && self.dictionary
            == other.dictionary
    }
}

impl PartialEqSpecImpl for CleanupPromptSections {
    open spec fn obeys_eq_spec() -> bool {
        true
    }

    open spec fn eq_spec(&self, other: &Self) -> bool {
        self@ == other@
    }
}

/// The settings that are kept between two runs of the application.
#[derive(Debug)]
pub struct AppSettings {
    /// The hotkey that starts and stops a recording.
    pub toggle_hotkey: HotkeyConfig,
    /// The hotkey that records while it is held.
    pub hold_hotkey: HotkeyConfig,
    /// The microphone to record from; the system's default where none is
    /// chosen.
    pub selected_mic_id: Option<String>,
    /// Whether a sound marks the start and the end of a recording.
    pub sound_enabled: bool,
    /// The sections of the cleanup prompt.
    pub cleanup_prompt_sections: Option<CleanupPromptSections>,
    /// The speech-to-text provider; the server's default where none is chosen.
    pub stt_provider: Option<String>,
    /// The language-model provider; the server's default where none is chosen.
    pub llm_provider: Option<String>,
    /// Whether the system's audio is muted while a recording runs.
    pub auto_mute_audio: bool,
}

/// `AppSettings` as plain text.
pub struct AppSettingsView {
    pub toggle_hotkey: HotkeyConfigView,
    pub hold_hotkey: HotkeyConfigView,
    pub selected_mic_id: Option<Seq<char>>,
    pub sound_enabled: bool,
    pub cleanup_prompt_sections: Option<CleanupPromptSectionsView>,
    pub stt_provider: Option<Seq<char>>,
    pub llm_provider: Option<Seq<char>>,
    pub auto_mute_audio: bool,
}

impl View for AppSettings {
    type V = AppSettingsView;

    open spec fn view(&self) -> AppSettingsView {
        AppSettingsView {
            toggle_hotkey: self.toggle_hotkey@,
            hold_hotkey: self.hold_hotkey@,
            selected_mic_id: opt_text(self.selected_mic_id),
            sound_enabled: self.sound_enabled,
            cleanup_prompt_sections: match self.cleanup_prompt_sections {
                Some(sections) => Some(sections@),
                None => None,
            },
            stt_provider: opt_text(self.stt_provider),
            llm_provider: opt_text(self.llm_provider),
            auto_mute_audio: self.auto_mute_audio,
        }
    }
}

/// The settings of a fresh installation.
pub open spec fn default_settings() -> AppSettingsView {
    AppSettingsView {
        toggle_hotkey: ctrl_alt("Space"@),
        hold_hotkey: ctrl_alt("Period"@),
        selected_mic_id: None,
        sound_enabled: true,
        cleanup_prompt_sections: None,
        stt_provider: None,
        llm_provider: None,
        auto_mute_audio: false,
    }
}

/// The toggle hotkey of a fresh installation: `ctrl`, `alt` and `Space`.
pub fn default_toggle_hotkey() -> (r: HotkeyConfig)
    ensures
        r@ == ctrl_alt("Space"@),
{
    ctrl_alt_hotkey("Space")
}

/// The hold hotkey of a fresh installation: `ctrl`, `alt` and `Period`.
pub fn default_hold_hotkey() -> (r: HotkeyConfig)
    ensures
        r@ == ctrl_alt("Period"@),
{
    ctrl_alt_hotkey("Period")
}

/// Whether a fresh installation plays sounds: it does.
pub fn default_sound_enabled() -> (r: bool)
    ensures
        r,
{
    true
}

impl Default for AppSettings {
    fn default() -> (r: Self)
        ensures
            r@ == default_settings(),
    {
        AppSettings {
            toggle_hotkey: default_toggle_hotkey(),
            hold_hotkey: default_hold_hotkey(),
            selected_mic_id: None,
            sound_enabled: true,
            cleanup_prompt_sections: None,
            stt_provider: None,
            llm_provider: None,
            auto_mute_audio: false,
        }
    }
}

impl Clone for AppSettings {
    fn clone(&self) -> (r: Self)
        ensures
            r@ == self@,
    {
        AppSettings {
            toggle_hotkey: self.toggle_hotkey.clone(),
            hold_hotkey: self.hold_hotkey.clone(),
            selected_mic_id: clone_opt_string(&self.selected_mic_id),
            sound_enabled: self.sound_enabled,
            cleanup_prompt_sections: match &self.cleanup_prompt_sections {
                Some(sections) => Some(sections.clone()),
                None => None,
            },
            stt_provider: clone_opt_string(&self.stt_provider),
            llm_provider: clone_opt_string(&self.llm_provider),
            auto_mute_audio: self.auto_mute_audio,
        }
    }
}

/// Holds the settings of the running application. Each change is made here
/// first; the caller then writes the settings to disk.
pub struct SettingsManager {
    settings: AppSettings,
}

impl View for SettingsManager {
    type V = AppSettingsView;

    closed spec fn view(&self) -> AppSettingsView {
        self.settings@
    }
}

impl SettingsManager {
    /// Makes a manager of the settings that were read from disk, or of the
    /// settings of a fresh installation where none could be read.
    pub fn new(loaded_settings: Option<AppSettings>) -> (r: Self)
        ensures
            r@ == match loaded_settings {
                Some(settings) => settings@,
                None => default_settings(),
            },
    {
        SettingsManager {
            settings: match loaded_settings {
                Some(settings) => settings,
                None => AppSettings::default(),
            },
        }
    }

    /// A copy of the settings.
    pub fn get(&self) -> (r: AppSettings)
        ensures
            r@ == self@,
    {
        self.settings.clone()
    }

    /// Replaces all settings.
    pub fn update(&mut self, new_settings: AppSettings)
        ensures
            final(self)@ == new_settings@,
    {
        self.settings = new_settings;
    }

    /// Replaces the toggle hotkey.
    pub fn update_toggle_hotkey(&mut self, hotkey: HotkeyConfig)
        ensures
            final(self)@ == (AppSettingsView { toggle_hotkey: hotkey@, ..old(self)@ }),
    {
        self.settings.toggle_hotkey = hotkey;
    }

    /// Replaces the hold hotkey.
    pub fn update_hold_hotkey(&mut self, hotkey: HotkeyConfig)
        ensures
            final(self)@ == (AppSettingsView { hold_hotkey: hotkey@, ..old(self)@ }),
    {
        self.settings.hold_hotkey = hotkey;
    }

    /// Chooses the microphone; `None` chooses the system's default.
    pub fn update_selected_mic(&mut self, mic_id: Option<String>)
        ensures
            final(self)@ == (AppSettingsView { selected_mic_id: opt_text(mic_id), ..old(self)@ }),
    {
        self.settings.selected_mic_id = mic_id;
    }

    /// Switches the sounds on or off.
    pub fn update_sound_enabled(&mut self, enabled: bool)
        ensures
            final(self)@ == (AppSettingsView { sound_enabled: enabled, ..old(self)@ }),
    {
        self.settings.sound_enabled = enabled;
    }

    /// Replaces the sections of the cleanup prompt.
    pub fn update_cleanup_prompt_sections(&mut self, sections: Option<CleanupPromptSections>)
        ensures
            final(self)@ == (AppSettingsView {
                cleanup_prompt_sections: match sections {
                    Some(sections) => Some(sections@),
                    None => None,
                },
                ..old(self)@
            }),
    {
        self.settings.cleanup_prompt_sections = sections;
    }

    /// Chooses the speech-to-text provider; `None` chooses the server's
    /// default.
    pub fn update_stt_provider(&mut self, provider: Option<String>)
        ensures
            final(self)@ == (AppSettingsView { stt_provider: opt_text(provider), ..old(self)@ }),
    {
        self.settings.stt_provider = provider;
    }

    /// Chooses the language-model provider; `None` chooses the server's
    /// default.
    pub fn update_llm_provider(&mut self, provider: Option<String>)
        ensures
            final(self)@ == (AppSettingsView { llm_provider: opt_text(provider), ..old(self)@ }),
    {
        self.settings.llm_provider = provider;
    }

    /// Switches the muting of the system's audio during a recording on or
    /// off.
    pub fn update_auto_mute_audio(&mut self, enabled: bool)
        ensures
            final(self)@ == (AppSettingsView { auto_mute_audio: enabled, ..old(self)@ }),
    {
        self.settings.auto_mute_audio = enabled;
    }
}

/// The settings that are kept on this machine only.
#[derive(Debug, Clone, Copy, PartialEq, Eq, Structural)]
pub enum LocalOnlySetting {
    ToggleHotkey,
    HoldHotkey,
    PasteLastHotkey,
    SelectedMicId,
    SoundEnabled,
    AutoMuteAudio,
    ServerUrl,
    SendActiveAppContextEnabled,
}

/// The settings that are sent to the server by HTTP when they change.
#[derive(Debug, Clone, Copy, PartialEq, Eq, Structural)]
pub enum HttpSyncedSetting {
    CleanupPromptSections,
    SttTimeoutSeconds,
    LlmFormattingEnabled,
}

/// The settings that are sent to the server over the live connection when
/// they change.
#[derive(Debug, Clone, Copy, PartialEq, Eq, Structural)]
pub enum RtviSyncedSetting {
    SttProvider,
    LlmProvider,
}

/// A setting, by the way in which it is kept.
#[derive(Debug, Clone, Copy, PartialEq, Eq, Structural)]
pub enum SettingClass {
    LocalOnly(LocalOnlySetting),
    ServerSyncedHttp(HttpSyncedSetting),
    ServerSyncedRtvi(RtviSyncedSetting),
}

} // verus!
