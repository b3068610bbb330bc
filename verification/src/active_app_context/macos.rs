//! Reading the focus on macOS: what the accessibility tree and the window
//! list give, put together into a snapshot.

use crate::active_app_context::assemble_snapshot;
use crate::active_app_context::assembled_snapshot;
use crate::active_app_context::build_browser_tab;
use crate::active_app_context::focused_browser_tab;
use crate::active_app_context::shared::browser_document_origin;
use crate::active_app_context::shared::is_origin;
use crate::active_app_context::shared::normalize_browser_document_origin;
use crate::active_app_context::shared::normalize_non_empty_focus_text;
use crate::active_app_context::shared::normalized_text;
use crate::active_app_context::ActiveAppContextSnapshot;
use crate::active_app_context::FocusEventSource;
use crate::active_app_context::FocusedApplication;
use crate::active_app_context::FocusedApplicationView;
use crate::active_app_context::FocusedBrowserTab;
use crate::active_app_context::SupportedBrowser;
use crate::text::clone_opt_string;
use crate::text::is_text;
use crate::text::opt_str_text;
use crate::text::opt_text;
use crate::text::to_chars;
use vstd::prelude::*;

verus! {

/// The browser that a bundle identifier names.
pub open spec fn browser_for_bundle_identifier(bundle_identifier: Seq<char>) -> Option<
    SupportedBrowser,
> {
    if bundle_identifier == "com.apple.Safari"@ {
        Some(SupportedBrowser::Safari)
    } else if bundle_identifier == "com.google.Chrome"@ {
        Some(SupportedBrowser::GoogleChrome)
    } else if bundle_identifier == "com.microsoft.edgemac"@ {
        Some(SupportedBrowser::MicrosoftEdge)
    } else if bundle_identifier == "com.brave.Browser"@ {
        Some(SupportedBrowser::BraveBrowser)
    } else if bundle_identifier == "company.thebrowser.Browser"@ {
        Some(SupportedBrowser::Arc)
    } else if bundle_identifier == "org.mozilla.firefox"@ {
        Some(SupportedBrowser::Firefox)
    } else if bundle_identifier == "com.operasoftware.Opera"@ {
        Some(SupportedBrowser::Opera)
    } else if bundle_identifier == "com.vivaldi.Vivaldi"@ {
        Some(SupportedBrowser::Vivaldi)
    } else if bundle_identifier == "org.chromium.Chromium"@ {
        Some(SupportedBrowser::Chromium)
    } else {
        None
    }
}

/// Finds the browser that a bundle identifier names.
pub fn supported_browser_from_bundle_identifier(bundle_identifier: &str) -> (r: Option<
    SupportedBrowser,
>)
    ensures
        r == browser_for_bundle_identifier(bundle_identifier@),
{
    let chars = to_chars(bundle_identifier);
    if is_text(&chars, "com.apple.Safari") {
        Some(SupportedBrowser::Safari)
    } else if is_text(&chars, "com.google.Chrome") {
        Some(SupportedBrowser::GoogleChrome)
    } else if is_text(&chars, "com.microsoft.edgemac") {
        Some(SupportedBrowser::MicrosoftEdge)
    } else if is_text(&chars, "com.brave.Browser") {
        Some(SupportedBrowser::BraveBrowser)
    } else if is_text(&chars, "company.thebrowser.Browser") {
        Some(SupportedBrowser::Arc)
    } else if is_text(&chars, "org.mozilla.firefox") {
        Some(SupportedBrowser::Firefox)
    } else if is_text(&chars, "com.operasoftware.Opera") {
        Some(SupportedBrowser::Opera)
    } else if is_text(&chars, "com.vivaldi.Vivaldi") {
        Some(SupportedBrowser::Vivaldi)
    } else if is_text(&chars, "org.chromium.Chromium") {
        Some(SupportedBrowser::Chromium)
    } else {
        None
    }
}

/// What the workspace tells of the application in the foreground.
#[derive(Debug)]
pub struct FrontmostApplicationMetadata {
    pub display_name: String,
    pub bundle_identifier: Option<String>,
    pub process_identifier: i32,
}

impl Clone for FrontmostApplicationMetadata {
    fn clone(&self) -> (r: Self)
        ensures
            r == *self,
    {
        FrontmostApplicationMetadata {
            display_name: self.display_name.clone(),
            bundle_identifier: clone_opt_string(&self.bundle_identifier),
            process_identifier: self.process_identifier,
        }
    }
}

/// What the accessibility tree tells of the focused window. Both texts are
/// trimmed, and absent where nothing but whitespace was read.
#[derive(Debug)]
pub struct AccessibilityFocusedWindowDetails {
    pub focused_window_title: Option<String>,
    pub focused_document_url: Option<String>,
}

impl Clone for AccessibilityFocusedWindowDetails {
    fn clone(&self) -> (r: Self)
        ensures
            r == *self,
    {
        AccessibilityFocusedWindowDetails {
            focused_window_title: clone_opt_string(&self.focused_window_title),
            focused_document_url: clone_opt_string(&self.focused_document_url),
        }
    }
}

/// One window of the window server's list, as far as it could be read.
#[derive(Debug)]
pub struct WindowListEntry {
    pub owner_process_identifier: Option<i32>,
    pub layer: Option<i32>,
    /// The window's name as the list gives it, untrimmed.
    pub name: Option<String>,
}

/// The name under which an application is shown where the system gives none.
pub open spec fn unknown_application_name() -> Seq<char> {
    "Unknown"@
}

/// Makes the metadata of the application in the foreground from what the
/// workspace gave for it.
pub fn collect_frontmost_application_metadata(
    localized_name: Option<String>,
    bundle_identifier: Option<String>,
    process_identifier: i32,
) -> (r: FrontmostApplicationMetadata)
    ensures
        r.display_name@ == match localized_name {
            Some(name) => name@,
            None => unknown_application_name(),
        },
        r.bundle_identifier == bundle_identifier,
        r.process_identifier == process_identifier,
{
    let display_name = match localized_name {
        Some(name) => name,
        None => "Unknown".to_owned(),
    };
    FrontmostApplicationMetadata { display_name, bundle_identifier, process_identifier }
}

/// The application of a snapshot, as the metadata describe it.
pub open spec fn focused_application_of(metadata: Option<FrontmostApplicationMetadata>) -> Option<
    FocusedApplicationView,
> {
    match metadata {
        Some(metadata) => Some(
            FocusedApplicationView {
                display_name: metadata.display_name@,
                bundle_id: opt_text(metadata.bundle_identifier),
                process_path: None,
            },
        ),
        None => None,
    }
}

/// Makes the application of a snapshot from the metadata.
pub fn build_focused_application(
    frontmost_application_metadata: Option<&FrontmostApplicationMetadata>,
) -> (r: Option<FocusedApplication>)
    ensures
        match r {
            Some(application) => Some(application@),
            None => None,
        } == focused_application_of(
            match frontmost_application_metadata {
                Some(metadata) => Some(*metadata),
                None => None,
            },
        ),
{
    match frontmost_application_metadata {
        Some(metadata) => Some(
            FocusedApplication {
                display_name: metadata.display_name.clone(),
                bundle_id: clone_opt_string(&metadata.bundle_identifier),
                process_path: None,
            },
        ),
        None => None,
    }
}

/// The process whose accessibility tree is to be read: that of the
/// application in the foreground, and none where this process is not trusted
/// to read such trees.
pub fn get_accessibility_focused_window_details_for_frontmost_application(
    accessibility_is_trusted: bool,
    frontmost_application_metadata: Option<&FrontmostApplicationMetadata>,
) -> (r: Option<i32>)
    ensures
        r == match frontmost_application_metadata {
            Some(metadata) => if accessibility_is_trusted {
                Some(metadata.process_identifier)
            } else {
                None
            },
            None => None,
        },
{
    if !accessibility_is_trusted {
        return None;
    }
    match frontmost_application_metadata {
        Some(metadata) => Some(metadata.process_identifier),
        None => None,
    }
}

/// Makes the details of the focused window from the title and the document
/// address that its accessibility element gave.
pub fn get_accessibility_focused_window_details(
    raw_window_title: Option<&str>,
    raw_document_url: Option<&str>,
) -> (r: AccessibilityFocusedWindowDetails)
    ensures
        opt_text(r.focused_window_title) == match raw_window_title {
            Some(title) => normalized_text(title@),
            None => None,
        },
        opt_text(r.focused_document_url) == match raw_document_url {
            Some(url) => normalized_text(url@),
            None => None,
        },
{
    AccessibilityFocusedWindowDetails {
        focused_window_title: match raw_window_title {
            Some(title) => normalize_non_empty_focus_text(title),
            None => None,
        },
        focused_document_url: match raw_document_url {
            Some(url) => normalize_non_empty_focus_text(url),
            None => None,
        },
    }
}

/// Whether an entry of the window list is an ordinary window of the process
/// `process_identifier`: it belongs to the process and lies on layer 0.
pub open spec fn is_window_of(entry: WindowListEntry, process_identifier: i32) -> bool {
    entry.owner_process_identifier == Some(process_identifier) && entry.layer == Some(0i32)
}

/// The title that an entry of the window list gives for the process: its
/// trimmed name, where it is a window of the process and has a name.
pub open spec fn window_title_of(entry: WindowListEntry, process_identifier: i32) -> Option<
    Seq<char>,
> {
    if is_window_of(entry, process_identifier) {
        match entry.name {
            Some(name) => normalized_text(name@),
            None => None,
        }
    } else {
        None
    }
}

/// The title of the first window in the list that gives one for the process.
pub open spec fn frontmost_window_title(windows: Seq<WindowListEntry>, process_identifier: i32)
    -> Option<Seq<char>>
    decreases windows.len(),
{
    if windows.len() == 0 {
        None
    } else {
        match window_title_of(windows.first(), process_identifier) {
            Some(title) => Some(title),
            None => frontmost_window_title(windows.drop_first(), process_identifier),
        }
    }
}

/// Searches the window list, which is in front-to-back order, for the title of
/// the frontmost window of a process.
pub fn get_frontmost_window_title_from_core_graphics(
    windows: &Vec<WindowListEntry>,
    frontmost_process_identifier: i32,
) -> (r: Option<String>)
    ensures
        opt_text(r) == frontmost_window_title(windows@, frontmost_process_identifier),
{
    let mut i: usize = 0;
    assert(windows@.subrange(0, windows.len() as int) =~= windows@);
    while i < windows.len()
        invariant
            i <= windows.len(),
            frontmost_window_title(windows@, frontmost_process_identifier)
                == frontmost_window_title(
                windows@.subrange(i as int, windows.len() as int),
                frontmost_process_identifier,
            ),
        decreases windows.len() - i,
    {
        let entry = &windows[i];
        let ghost rest = windows@.subrange(i as int, windows.len() as int);
        assert(rest.first() == windows@[i as int]);
        assert(rest.drop_first() =~= windows@.subrange(i + 1, windows.len() as int));
        let belongs = match entry.owner_process_identifier {
            Some(owner) => owner == frontmost_process_identifier,
            None => false,
        };
        let on_window_layer = match entry.layer {
            Some(layer) => layer == 0,
            None => false,
        };
        if belongs && on_window_layer {
            match &entry.name {
                Some(name) => {
                    let title = normalize_non_empty_focus_text(name.as_str());
                    if title.is_some() {
                        return title;
                    }
                },
                None => {},
            }
        }
        i = i + 1;
    }
    None
}

/// The process whose windows are to be searched for a title: that of the
/// application in the foreground, and none where the accessibility tree gave
/// a title already.
pub fn window_list_search_target(
    frontmost_application_metadata: Option<&FrontmostApplicationMetadata>,
    accessibility_focused_window_details: Option<&AccessibilityFocusedWindowDetails>,
) -> (r: Option<i32>)
    ensures
        r == if accessibility_title(
            match accessibility_focused_window_details {
                Some(details) => Some(*details),
                None => None,
            },
        ) is Some {
            None
        } else {
            match frontmost_application_metadata {
                Some(metadata) => Some(metadata.process_identifier),
                None => None,
            }
        },
{
    let has_title = match accessibility_focused_window_details {
        Some(details) => details.focused_window_title.is_some(),
        None => false,
    };
    if has_title {
        return None;
    }
    match frontmost_application_metadata {
        Some(metadata) => Some(metadata.process_identifier),
        None => None,
    }
}

/// The window title that the accessibility tree gave.
pub open spec fn accessibility_title(details: Option<AccessibilityFocusedWindowDetails>) -> Option<
    Seq<char>,
> {
    match details {
        Some(details) => opt_text(details.focused_window_title),
        None => None,
    }
}

/// The document address that the accessibility tree gave.
pub open spec fn accessibility_document_url(details: Option<AccessibilityFocusedWindowDetails>)
    -> Option<Seq<char>> {
    match details {
        Some(details) => opt_text(details.focused_document_url),
        None => None,
    }
}

/// The title of the focused window: the one from the accessibility tree, and
/// the one from the window list where the tree gave none.
pub open spec fn focused_window_title(
    details: Option<AccessibilityFocusedWindowDetails>,
    window_list_title: Option<Seq<char>>,
) -> Option<Seq<char>> {
    match accessibility_title(details) {
        Some(title) => Some(title),
        None => window_list_title,
    }
}

/// Chooses the title of the focused window.
pub fn determine_focused_window_title(
    accessibility_focused_window_details: Option<&AccessibilityFocusedWindowDetails>,
    window_list_title: Option<String>,
) -> (r: Option<String>)
    ensures
        opt_text(r) == focused_window_title(
            match accessibility_focused_window_details {
                Some(details) => Some(*details),
                None => None,
            },
            opt_text(window_list_title),
        ),
{
    match accessibility_focused_window_details {
        Some(details) => match &details.focused_window_title {
            Some(title) => Some(title.clone()),
            None => window_list_title,
        },
        None => window_list_title,
    }
}

/// The browser that the application in the foreground is.
pub open spec fn frontmost_browser(metadata: Option<FrontmostApplicationMetadata>) -> Option<
    SupportedBrowser,
> {
    match metadata {
        Some(metadata) => match metadata.bundle_identifier {
            Some(bundle_identifier) => browser_for_bundle_identifier(bundle_identifier@),
            None => None,
        },
        None => None,
    }
}

/// The origin of the document that the accessibility tree names.
pub open spec fn accessibility_origin(details: Option<AccessibilityFocusedWindowDetails>) -> Option<
    Seq<char>,
> {
    match accessibility_document_url(details) {
        Some(url) => browser_document_origin(url),
        None => None,
    }
}

fn frontmost_supported_browser(
    frontmost_application_metadata: Option<&FrontmostApplicationMetadata>,
) -> (r: Option<SupportedBrowser>)
    ensures
        r == frontmost_browser(
            match frontmost_application_metadata {
                Some(metadata) => Some(*metadata),
                None => None,
            },
        ),
{
    match frontmost_application_metadata {
        Some(metadata) => match &metadata.bundle_identifier {
            Some(bundle_identifier) => supported_browser_from_bundle_identifier(
                bundle_identifier.as_str(),
            ),
            None => None,
        },
        None => None,
    }
}

fn normalized_accessibility_origin(
    accessibility_focused_window_details: Option<&AccessibilityFocusedWindowDetails>,
) -> (r: Option<String>)
    ensures
        opt_text(r) == accessibility_origin(
            match accessibility_focused_window_details {
                Some(details) => Some(*details),
                None => None,
            },
        ),
        r matches Some(origin) ==> is_origin(origin@),
{
    match accessibility_focused_window_details {
        Some(details) => match &details.focused_document_url {
            Some(url) => normalize_browser_document_origin(url.as_str()),
            None => None,
        },
        None => None,
    }
}

/// Builds the tab of the focused window. There is none where the application
/// in the foreground is no recognised browser.
pub fn build_focused_browser_tab(
    frontmost_application_metadata: Option<&FrontmostApplicationMetadata>,
    focused_window_title: Option<&str>,
    accessibility_focused_window_details: Option<&AccessibilityFocusedWindowDetails>,
) -> (r: Option<FocusedBrowserTab>)
    ensures
        match r {
            Some(tab) => Some(tab@),
            None => None,
        } == focused_browser_tab(
            frontmost_browser(
                match frontmost_application_metadata {
                    Some(metadata) => Some(*metadata),
                    None => None,
                },
            ),
            opt_str_text(focused_window_title),
            accessibility_origin(
                match accessibility_focused_window_details {
                    Some(details) => Some(*details),
                    None => None,
                },
            ),
        ),
{
    let supported_browser = frontmost_supported_browser(frontmost_application_metadata);
    if supported_browser.is_none() {
        return None;
    }
    let origin = normalized_accessibility_origin(accessibility_focused_window_details);
    build_browser_tab(supported_browser, focused_window_title, origin)
}

/// The snapshot that the readings of one capture on macOS make.
pub open spec fn macos_snapshot(
    metadata: Option<FrontmostApplicationMetadata>,
    details: Option<AccessibilityFocusedWindowDetails>,
    window_list_title: Option<Seq<char>>,
    captured_at: Seq<char>,
) -> crate::active_app_context::ActiveAppContextSnapshotView {
    assembled_snapshot(
        focused_application_of(metadata),
        focused_window_title(details, window_list_title),
        frontmost_browser(metadata),
        accessibility_origin(details),
        FocusEventSource::Accessibility,
        accessibility_title(details) is Some,
        captured_at,
    )
}

/// Puts the readings of one capture on macOS together: the metadata of the
/// application in the foreground, what the accessibility tree gave for its
/// focused window, the title that the window list gave, and the time of the
/// capture.
pub fn get_current_active_app_context(
    frontmost_application_metadata: Option<&FrontmostApplicationMetadata>,
    accessibility_focused_window_details: Option<&AccessibilityFocusedWindowDetails>,
    window_list_title: Option<String>,
    captured_at: String,
) -> (r: ActiveAppContextSnapshot)
    ensures
        r@ == macos_snapshot(
            match frontmost_application_metadata {
                Some(metadata) => Some(*metadata),
                None => None,
            },
            match accessibility_focused_window_details {
                Some(details) => Some(*details),
                None => None,
            },
            opt_text(window_list_title),
            captured_at@,
        ),
        r@.well_formed(),
        frontmost_browser(
            match frontmost_application_metadata {
                Some(metadata) => Some(*metadata),
                None => None,
            },
        ) is None ==> r.focused_browser_tab is None,
{
    let focused_application = build_focused_application(frontmost_application_metadata);
    let title_is_structured = match accessibility_focused_window_details {
        Some(details) => details.focused_window_title.is_some(),
        None => false,
    };
    let focused_window_title = determine_focused_window_title(
        accessibility_focused_window_details,
        window_list_title,
    );
    let supported_browser = frontmost_supported_browser(frontmost_application_metadata);
    let origin = if supported_browser.is_some() {
        normalized_accessibility_origin(accessibility_focused_window_details)
    } else {
        None
    };
    assemble_snapshot(
        focused_application,
        focused_window_title,
        supported_browser,
        origin,
        FocusEventSource::Accessibility,
        title_is_structured,
        captured_at,
    )
}

} // verus!
