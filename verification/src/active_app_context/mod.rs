//! What has the input focus: the application, its window and, in a browser,
//! the tab. A snapshot is one best-effort reading of all three.

use crate::text::clone_opt_string;
use crate::text::opt_as_str;
use crate::text::opt_string_eq;
use crate::text::opt_text;
use vstd::prelude::*;
use vstd::std_specs::cmp::PartialEqSpecImpl;

pub mod macos;
pub mod shared;
pub mod watcher;
pub mod windows;

verus! {

/// The browsers whose windows are read for a tab.
#[derive(Debug, Clone, Copy, PartialEq, Eq, Structural)]
pub enum SupportedBrowser {
    Safari,
    GoogleChrome,
    MicrosoftEdge,
    BraveBrowser,
    Arc,
    Firefox,
    Opera,
    Vivaldi,
    Chromium,
}

impl SupportedBrowser {
    /// The name under which the browser is shown.
    pub open spec fn display_name_text(self) -> Seq<char> {
        match self {
            SupportedBrowser::Safari => "Safari"@,
            SupportedBrowser::GoogleChrome => "Google Chrome"@,
            SupportedBrowser::MicrosoftEdge => "Microsoft Edge"@,
            SupportedBrowser::BraveBrowser => "Brave Browser"@,
            SupportedBrowser::Arc => "Arc"@,
            SupportedBrowser::Firefox => "Firefox"@,
            SupportedBrowser::Opera => "Opera"@,
            SupportedBrowser::Vivaldi => "Vivaldi"@,
            SupportedBrowser::Chromium => "Chromium"@,
        }
    }

    /// The name under which the browser is shown.
    pub fn display_name(self) -> (r: &'static str)
        ensures
            r@ == self.display_name_text(),
    {
        match self {
            SupportedBrowser::Safari => "Safari",
            SupportedBrowser::GoogleChrome => "Google Chrome",
            SupportedBrowser::MicrosoftEdge => "Microsoft Edge",
            SupportedBrowser::BraveBrowser => "Brave Browser",
            SupportedBrowser::Arc => "Arc",
            SupportedBrowser::Firefox => "Firefox",
            SupportedBrowser::Opera => "Opera",
            SupportedBrowser::Vivaldi => "Vivaldi",
            SupportedBrowser::Chromium => "Chromium",
        }
    }
}

/// Which way of reading the system gave the window title or the tab's origin.
#[derive(Debug, Clone, Copy, PartialEq, Eq, Structural)]
pub enum FocusEventSource {
    Polling,
    Accessibility,
    Uia,
    Unknown,
}

/// How much of the focus a snapshot holds.
#[derive(Debug, Clone, Copy, PartialEq, Eq, Structural)]
pub enum FocusConfidenceLevel {
    High,
    Medium,
    Low,
}

/// The application in the foreground.
#[derive(Debug)]
pub struct FocusedApplication {
    pub display_name: String,
    pub bundle_id: Option<String>,
    pub process_path: Option<String>,
}

/// A `FocusedApplication` as plain text.
pub struct FocusedApplicationView {
    pub display_name: Seq<char>,
    pub bundle_id: Option<Seq<char>>,
    pub process_path: Option<Seq<char>>,
}

impl View for FocusedApplication {
    type V = FocusedApplicationView;

    open spec fn view(&self) -> FocusedApplicationView {
        FocusedApplicationView {
            display_name: self.display_name@,
            bundle_id: opt_text(self.bundle_id),
            process_path: opt_text(self.process_path),
        }
    }
}

impl Clone for FocusedApplication {
    fn clone(&self) -> (r: Self)
        ensures
            r == *self,
    {
        FocusedApplication {
            display_name: self.display_name.clone(),
            bundle_id: clone_opt_string(&self.bundle_id),
            process_path: clone_opt_string(&self.process_path),
        }
    }
}

impl PartialEq for FocusedApplication {
    fn eq(&self, other: &Self) -> (r: bool) {
        self.display_name == other.display_name && opt_string_eq(&self.bundle_id, &other.bundle_id)
            && opt_string_eq(&self.process_path, &other.process_path)
    }
}

impl PartialEqSpecImpl for FocusedApplication {
    open spec fn obeys_eq_spec() -> bool {
        true
    }

    open spec fn eq_spec(&self, other: &Self) -> bool {
        self@ == other@
    }
}

impl Eq for FocusedApplication {

}

/// The window that has the focus. It is there only where a title was found.
#[derive(Debug)]
pub struct FocusedWindow {
    pub title: String,
}

/// A `FocusedWindow` as plain text.
pub struct FocusedWindowView {
    pub title: Seq<char>,
}

impl View for FocusedWindow {
    type V = FocusedWindowView;

    open spec fn view(&self) -> FocusedWindowView {
        FocusedWindowView { title: self.title@ }
    }
}

impl Clone for FocusedWindow {
    fn clone(&self) -> (r: Self)
        ensures
            r == *self,
    {
        FocusedWindow { title: self.title.clone() }
    }
}

impl PartialEq for FocusedWindow {
    fn eq(&self, other: &Self) -> (r: bool) {
        self.title == other.title
    }
}

impl PartialEqSpecImpl for FocusedWindow {
    open spec fn obeys_eq_spec() -> bool {
        true
    }

    open spec fn eq_spec(&self, other: &Self) -> bool {
        self@ == other@
    }
}

impl Eq for FocusedWindow {

}

/// The tab that a browser in the foreground shows.
#[derive(Debug)]
pub struct FocusedBrowserTab {
    pub title: Option<String>,
    /// Scheme and authority of the page, such as `https://example.com`.
    pub origin: Option<String>,
    pub browser: Option<String>,
}

/// A `FocusedBrowserTab` as plain text.
pub struct FocusedBrowserTabView {
    pub title: Option<Seq<char>>,
    pub origin: Option<Seq<char>>,
    pub browser: Option<Seq<char>>,
}

impl View for FocusedBrowserTab {
    type V = FocusedBrowserTabView;

    open spec fn view(&self) -> FocusedBrowserTabView {
        FocusedBrowserTabView {
            title: opt_text(self.title),
            origin: opt_text(self.origin),
            browser: opt_text(self.browser),
        }
    }
}

impl Clone for FocusedBrowserTab {
    fn clone(&self) -> (r: Self)
        ensures
            r == *self,
    {
        FocusedBrowserTab {
            title: clone_opt_string(&self.title),
            origin: clone_opt_string(&self.origin),
            browser: clone_opt_string(&self.browser),
        }
    }
}

impl PartialEq for FocusedBrowserTab {
    fn eq(&self, other: &Self) -> (r: bool) {
        opt_string_eq(&self.title, &other.title) && opt_string_eq(&self.origin, &other.origin)
            && opt_string_eq(&self.browser, &other.browser)
    }
}

impl PartialEqSpecImpl for FocusedBrowserTab {
    open spec fn obeys_eq_spec() -> bool {
        true
    }

    open spec fn eq_spec(&self, other: &Self) -> bool {
        self@ == other@
    }
}

impl Eq for FocusedBrowserTab {

}

/// One reading of the input focus.
#[derive(Debug)]
pub struct ActiveAppContextSnapshot {
    pub focused_application: Option<FocusedApplication>,
    pub focused_window: Option<FocusedWindow>,
    pub focused_browser_tab: Option<FocusedBrowserTab>,
    pub event_source: FocusEventSource,
    pub confidence_level: FocusConfidenceLevel,
    /// The time of the reading, in UTC, as ISO 8601 writes it.
    pub captured_at: String,
}

/// An `ActiveAppContextSnapshot` as plain text.
pub struct ActiveAppContextSnapshotView {
    pub focused_application: Option<FocusedApplicationView>,
    pub focused_window: Option<FocusedWindowView>,
    pub focused_browser_tab: Option<FocusedBrowserTabView>,
    pub event_source: FocusEventSource,
    pub confidence_level: FocusConfidenceLevel,
    pub captured_at: Seq<char>,
}

impl ActiveAppContextSnapshotView {
    /// Whether the snapshot holds a window.
    pub open spec fn has_window(self) -> bool {
        self.focused_window is Some
    }

    /// Whether the snapshot holds a browser tab.
    pub open spec fn has_browser_tab(self) -> bool {
        self.focused_browser_tab is Some
    }

    /// Whether the snapshot holds a browser tab with an origin.
    pub open spec fn has_origin(self) -> bool {
        self.focused_browser_tab matches Some(tab) && tab.origin is Some
    }

    /// Whether the origin of the tab, where there is one, is an origin: scheme,
    /// `://` and authority, and nothing else.
    pub open spec fn has_proper_origin(self) -> bool {
        match self.focused_browser_tab {
            Some(tab) => match tab.origin {
                Some(origin) => shared::is_origin(origin),
                None => true,
            },
            None => true,
        }
    }

    /// What every snapshot of a capture satisfies: a window has a title that
    /// is not empty, a tab holds a title or an origin, the origin of a tab is
    /// an origin, and the confidence level is the one that the held fields
    /// give.
    pub open spec fn well_formed(self) -> bool {
        &&& self.focused_window matches Some(window) ==> window.title.len() > 0
        &&& self.focused_browser_tab matches Some(tab) ==> tab.title is Some || tab.origin is Some
        &&& self.has_proper_origin()
        &&& self.confidence_level == shared::confidence_level(
            self.has_window(),
            self.has_browser_tab(),
            self.has_origin(),
        )
    }
}

impl View for ActiveAppContextSnapshot {
    type V = ActiveAppContextSnapshotView;

    open spec fn view(&self) -> ActiveAppContextSnapshotView {
        ActiveAppContextSnapshotView {
            focused_application: match self.focused_application {
                Some(application) => Some(application@),
                None => None,
            },
            focused_window: match self.focused_window {
                Some(window) => Some(window@),
                None => None,
            },
            focused_browser_tab: match self.focused_browser_tab {
                Some(tab) => Some(tab@),
                None => None,
            },
            event_source: self.event_source,
            confidence_level: self.confidence_level,
            captured_at: self.captured_at@,
        }
    }
}

impl Clone for ActiveAppContextSnapshot {
    fn clone(&self) -> (r: Self)
        ensures
            r == *self,
    {
        ActiveAppContextSnapshot {
            focused_application: match &self.focused_application {
                Some(application) => Some(application.clone()),
                None => None,
            },
            focused_window: match &self.focused_window {
                Some(window) => Some(window.clone()),
                None => None,
            },
            focused_browser_tab: match &self.focused_browser_tab {
                Some(tab) => Some(tab.clone()),
                None => None,
            },
            event_source: self.event_source,
            confidence_level: self.confidence_level,
            captured_at: self.captured_at.clone(),
        }
    }
}

impl PartialEq for ActiveAppContextSnapshot {
    fn eq(&self, other: &Self) -> (r: bool) {
        let same_application = match (&self.focused_application, &other.focused_application) {
            (Some(a), Some(b)) => *a == *b,
            (None, None) => true,
            _ => false,
        };
        let same_window = match (&self.focused_window, &other.focused_window) {
            (Some(a), Some(b)) => *a == *b,
            (None, None) => true,
            _ => false,
        };
        let same_tab = match (&self.focused_browser_tab, &other.focused_browser_tab) {
            (Some(a), Some(b)) => *a == *b,
            (None, None) => true,
            _ => false,
        };
        same_application && same_window && same_tab && self.event_source == other.event_source
            && self.confidence_level == other.confidence_level && self.captured_at
            == other.captured_at
    }
}

impl PartialEqSpecImpl for ActiveAppContextSnapshot {
    open spec fn obeys_eq_spec() -> bool {
        true
    }

    open spec fn eq_spec(&self, other: &Self) -> bool {
        self@ == other@
    }
}

impl Eq for ActiveAppContextSnapshot {

}

/// The tab of a snapshot. There is one only for a recognised browser, and
/// only where a title or an origin was found for it; it then carries the
/// browser's name.
pub open spec fn focused_browser_tab(
    browser: Option<SupportedBrowser>,
    window_title: Option<Seq<char>>,
    origin: Option<Seq<char>>,
) -> Option<FocusedBrowserTabView> {
    match browser {
        None => None,
        Some(browser) => {
            let title = shared::inferred_tab_title(window_title, browser.display_name_text());
            if title is None && origin is None {
                None
            } else {
                Some(
                    FocusedBrowserTabView {
                        title,
                        origin,
                        browser: Some(browser.display_name_text()),
                    },
                )
            }
        },
    }
}

/// A title that was read, unless it is empty.
pub open spec fn present_title(window_title: Option<Seq<char>>) -> Option<Seq<char>> {
    match window_title {
        Some(title) => if title.len() > 0 {
            Some(title)
        } else {
            None
        },
        None => None,
    }
}

/// The snapshot that the readings of one capture make.
///
/// An empty title counts as no title. `origin` is the origin that the
/// structured source gave for the browser's document, and
/// `title_is_structured` says whether that source gave the window's title
/// too. The snapshot names the structured source where it gave the title or
/// the origin of the tab, and `Polling` where it gave neither.
pub open spec fn assembled_snapshot(
    focused_application: Option<FocusedApplicationView>,
    window_title: Option<Seq<char>>,
    browser: Option<SupportedBrowser>,
    origin: Option<Seq<char>>,
    structured_source: FocusEventSource,
    title_is_structured: bool,
    captured_at: Seq<char>,
) -> ActiveAppContextSnapshotView {
    let window_title = present_title(window_title);
    let tab = focused_browser_tab(browser, window_title, origin);
    let has_origin = tab matches Some(t) && t.origin is Some;
    ActiveAppContextSnapshotView {
        focused_application,
        focused_window: match window_title {
            Some(title) => Some(FocusedWindowView { title }),
            None => None,
        },
        focused_browser_tab: tab,
        event_source: if (title_is_structured && window_title is Some) || has_origin {
            structured_source
        } else {
            FocusEventSource::Polling
        },
        confidence_level: shared::confidence_level(window_title is Some, tab is Some, has_origin),
        captured_at,
    }
}

/// An application that is no recognised browser never has a tab in its
/// snapshot, whatever the title of its window holds.
pub proof fn lemma_no_browser_no_tab(
    focused_application: Option<FocusedApplicationView>,
    window_title: Option<Seq<char>>,
    origin: Option<Seq<char>>,
    structured_source: FocusEventSource,
    title_is_structured: bool,
    captured_at: Seq<char>,
)
    ensures
        assembled_snapshot(
            focused_application,
            window_title,
            None,
            origin,
            structured_source,
            title_is_structured,
            captured_at,
        ).focused_browser_tab is None,
{
}

/// A snapshot that is assembled with an origin, or with none, is well
/// formed: its tab is no empty shell, and its confidence level is the one
/// that its fields give.
pub proof fn lemma_assembled_snapshot_is_well_formed(
    focused_application: Option<FocusedApplicationView>,
    window_title: Option<Seq<char>>,
    browser: Option<SupportedBrowser>,
    origin: Option<Seq<char>>,
    structured_source: FocusEventSource,
    title_is_structured: bool,
    captured_at: Seq<char>,
)
    requires
        origin matches Some(text) ==> shared::is_origin(text),
    ensures
        assembled_snapshot(
            focused_application,
            window_title,
            browser,
            origin,
            structured_source,
            title_is_structured,
            captured_at,
        ).well_formed(),
{
}

/// Builds the tab of a snapshot from the browser in the foreground, the title
/// of its window and the origin of its document.
pub fn build_browser_tab(
    browser: Option<SupportedBrowser>,
    window_title: Option<&str>,
    origin: Option<String>,
) -> (r: Option<FocusedBrowserTab>)
    ensures
        match r {
            Some(tab) => Some(tab@),
            None => None,
        } == focused_browser_tab(
            browser,
            crate::text::opt_str_text(window_title),
            opt_text(origin),
        ),
{
    match browser {
        None => None,
        Some(browser) => {
            let title = shared::infer_browser_tab_title_from_window_title(
                window_title,
                browser.display_name(),
            );
            if title.is_none() && origin.is_none() {
                None
            } else {
                Some(
                    FocusedBrowserTab {
                        title,
                        origin,
                        browser: Some(browser.display_name().to_owned()),
                    },
                )
            }
        },
    }
}

/// Puts the readings of one capture together. The snapshot is well formed
/// where `origin`, if there is one, is an origin.
pub fn assemble_snapshot(
    focused_application: Option<FocusedApplication>,
    window_title: Option<String>,
    browser: Option<SupportedBrowser>,
    origin: Option<String>,
    structured_source: FocusEventSource,
    title_is_structured: bool,
    captured_at: String,
) -> (r: ActiveAppContextSnapshot)
    ensures
        r@ == assembled_snapshot(
            match focused_application {
                Some(application) => Some(application@),
                None => None,
            },
            opt_text(window_title),
            browser,
            opt_text(origin),
            structured_source,
            title_is_structured,
            captured_at@,
        ),
        (opt_text(origin) matches Some(text) ==> shared::is_origin(text)) ==> r@.well_formed(),
        browser is None ==> r.focused_browser_tab is None,
{
    let window_title = match window_title {
        Some(title) => if title.as_str().is_empty() {
            None
        } else {
            Some(title)
        },
        None => None,
    };
    let focused_browser_tab = build_browser_tab(browser, opt_as_str(&window_title), origin);
    let focused_browser_origin_is_present = match &focused_browser_tab {
        Some(tab) => tab.origin.is_some(),
        None => false,
    };
    let event_source = if (title_is_structured && window_title.is_some())
        || focused_browser_origin_is_present {
        structured_source
    } else {
        FocusEventSource::Polling
    };
    let confidence_level = shared::determine_focus_confidence_level(
        window_title.is_some(),
        focused_browser_tab.is_some(),
        focused_browser_origin_is_present,
    );
    let focused_window = match window_title {
        Some(title) => Some(FocusedWindow { title }),
        None => None,
    };
    ActiveAppContextSnapshot {
        focused_application,
        focused_window,
        focused_browser_tab,
        event_source,
        confidence_level,
        captured_at,
    }
}

/// The snapshot of a system whose focus this crate cannot read: it holds the
/// time and nothing else.
pub fn snapshot_without_platform_support(captured_at: String) -> (r: ActiveAppContextSnapshot)
    ensures
        r@ == (ActiveAppContextSnapshotView {
            focused_application: None,
            focused_window: None,
            focused_browser_tab: None,
            event_source: FocusEventSource::Unknown,
            confidence_level: FocusConfidenceLevel::Low,
            captured_at: captured_at@,
        }),
        r@.well_formed(),
{
    ActiveAppContextSnapshot {
        focused_application: None,
        focused_window: None,
        focused_browser_tab: None,
        event_source: FocusEventSource::Unknown,
        confidence_level: FocusConfidenceLevel::Low,
        captured_at,
    }
}

} // verus!
