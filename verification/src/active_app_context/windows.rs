//! Reading the focus on Windows: what the foreground window and UI
//! Automation give, put together into a snapshot.

use crate::active_app_context::assemble_snapshot;
use crate::active_app_context::assembled_snapshot;
use crate::active_app_context::shared::browser_document_origin;
use crate::active_app_context::shared::is_origin;
use crate::active_app_context::shared::lemma_origin_is_an_origin;
use crate::active_app_context::shared::normalize_browser_document_origin;
use crate::active_app_context::shared::normalize_non_empty_focus_text;
use crate::active_app_context::shared::normalized_text;
use crate::active_app_context::ActiveAppContextSnapshot;
use crate::active_app_context::ActiveAppContextSnapshotView;
use crate::active_app_context::FocusEventSource;
use crate::active_app_context::FocusedApplication;
use crate::active_app_context::FocusedApplicationView;
use crate::active_app_context::SupportedBrowser;
use crate::text::contains;
use crate::text::contains_text;
use crate::text::is_text;
use crate::text::occurs_at;
use crate::text::opt_str_text;
use crate::text::opt_text;
use crate::text::to_chars;
use crate::text::to_lowercase;
use crate::text::unicode_lowercase;
use vstd::prelude::*;

verus! {

/// The stem of the file name that a path ends in, as `Path::file_stem` of the
/// standard library gives it for the system that the program is built for:
/// the file name without its extension, and nothing where the path ends in no
/// file name.
pub uninterp spec fn file_stem_text(process_path: Seq<char>) -> Option<Seq<char>>;

/// `Path::file_stem` of the standard library, on a path given as text. The
/// result is the stem of the path, which depends on nothing but the path.
/// The stem is the file name, which is a part of the path, or what stands in
/// the file name before its last dot, where that dot is not its first
/// character: so the stem is a part of the path's text and is not empty.
#[verifier::external_body]
fn path_file_stem(process_path: &str) -> (r: Option<String>)
    ensures
        opt_text(r) == file_stem_text(process_path@),
        r matches Some(stem) ==> stem@.len() > 0 && contains(process_path@, stem@),
{
    let stem = std::path::Path::new(process_path).file_stem()?;
    Some(stem.to_string_lossy().into_owned())
}

/// The name under which the application of an executable is shown: the stem
/// of the executable's file name, and the whole path where it has none.
pub open spec fn display_name_text(file_stem: Option<Seq<char>>, process_path: Seq<char>) -> Seq<
    char,
> {
    match file_stem {
        Some(stem) => stem,
        None => process_path,
    }
}

/// The name under which the application of an executable is shown, from the
/// stem of the executable's file name.
pub fn application_display_name(file_stem: Option<String>, process_path: &str) -> (r: String)
    ensures
        r@ == display_name_text(opt_text(file_stem), process_path@),
{
    match file_stem {
        Some(stem) => stem,
        None => process_path.to_owned(),
    }
}

/// The name under which the application of an executable is shown: the stem
/// of the file name that the path ends in, and the whole path where it ends
/// in none. The name is a part of the path, and it is empty only where the
/// path is.
pub fn get_application_display_name(process_path: &str) -> (r: String)
    ensures
        r@ == display_name_text(file_stem_text(process_path@), process_path@),
        contains(process_path@, r@),
        r@.len() == 0 ==> process_path@.len() == 0,
{
    let file_stem = path_file_stem(process_path);
    proof {
        if file_stem is None {
            assert(process_path@.subrange(0, process_path@.len() as int) =~= process_path@);
            assert(occurs_at(process_path@, process_path@, 0));
        }
    }
    application_display_name(file_stem, process_path)
}

/// Makes the application of a snapshot from the path of the executable that
/// owns the foreground window.
pub fn build_focused_application(process_path: Option<&str>) -> (r: Option<FocusedApplication>)
    ensures
        match process_path {
            Some(path) => r matches Some(application) && application@ == (FocusedApplicationView {
                display_name: display_name_text(file_stem_text(path@), path@),
                bundle_id: None,
                process_path: Some(path@),
            }) && contains(path@, application.display_name@) && (application.display_name@.len()
                == 0 ==> path@.len() == 0),
            None => r is None,
        },
{
    match process_path {
        Some(path) => Some(
            FocusedApplication {
                display_name: get_application_display_name(path),
                bundle_id: None,
                process_path: Some(path.to_owned()),
            },
        ),
        None => None,
    }
}

/// The browser that the name of an executable, in lower case, stands for.
pub open spec fn browser_for_executable_name(lowercase_name: Seq<char>) -> Option<
    SupportedBrowser,
> {
    if lowercase_name == "chrome"@ {
        Some(SupportedBrowser::GoogleChrome)
    } else if lowercase_name == "msedge"@ || lowercase_name == "edge"@ {
        Some(SupportedBrowser::MicrosoftEdge)
    } else if lowercase_name == "brave"@ {
        Some(SupportedBrowser::BraveBrowser)
    } else if lowercase_name == "opera"@ || lowercase_name == "opera_gx"@ {
        Some(SupportedBrowser::Opera)
    } else if lowercase_name == "arc"@ {
        Some(SupportedBrowser::Arc)
    } else if lowercase_name == "vivaldi"@ {
        Some(SupportedBrowser::Vivaldi)
    } else if lowercase_name == "chromium"@ {
        Some(SupportedBrowser::Chromium)
    } else if lowercase_name == "firefox"@ {
        Some(SupportedBrowser::Firefox)
    } else {
        None
    }
}

/// Finds the browser that the name of an executable stands for. The name is
/// taken as it is, so it has to be in lower case to be recognised.
pub fn supported_browser_from_lowercase_name(lowercase_name: &str) -> (r: Option<SupportedBrowser>)
    ensures
        r == browser_for_executable_name(lowercase_name@),
{
    let chars = to_chars(lowercase_name);
    if is_text(&chars, "chrome") {
        Some(SupportedBrowser::GoogleChrome)
    } else if is_text(&chars, "msedge") || is_text(&chars, "edge") {
        Some(SupportedBrowser::MicrosoftEdge)
    } else if is_text(&chars, "brave") {
        Some(SupportedBrowser::BraveBrowser)
    } else if is_text(&chars, "opera") || is_text(&chars, "opera_gx") {
        Some(SupportedBrowser::Opera)
    } else if is_text(&chars, "arc") {
        Some(SupportedBrowser::Arc)
    } else if is_text(&chars, "vivaldi") {
        Some(SupportedBrowser::Vivaldi)
    } else if is_text(&chars, "chromium") {
        Some(SupportedBrowser::Chromium)
    } else if is_text(&chars, "firefox") {
        Some(SupportedBrowser::Firefox)
    } else {
        None
    }
}

/// Finds the browser that the name of an application stands for, whatever the
/// case of its letters.
pub fn supported_browser_from_application_name(application_name: &str) -> (r: Option<
    SupportedBrowser,
>)
    ensures
        r == browser_for_executable_name(unicode_lowercase(application_name@)),
{
    let normalized_application_name = to_lowercase(application_name);
    supported_browser_from_lowercase_name(normalized_application_name.as_str())
}

/// Whether the automation id of a control, in lower case, marks an address
/// bar.
pub open spec fn id_marks_address_bar(lowercase_automation_id: Seq<char>) -> bool {
    ||| contains(lowercase_automation_id, "address"@)
    ||| contains(lowercase_automation_id, "searchbox"@)
    ||| contains(lowercase_automation_id, "urlbar"@)
    ||| contains(lowercase_automation_id, "omnibox"@)
}

/// Whether the accessible name of a control, in lower case, marks an address
/// bar.
pub open spec fn name_marks_address_bar(lowercase_control_name: Seq<char>) -> bool {
    ||| contains(lowercase_control_name, "address and search bar"@)
    ||| contains(lowercase_control_name, "search or enter address"@)
    ||| contains(lowercase_control_name, "search with google or enter address"@)
    ||| contains(lowercase_control_name, "address bar"@)
}

/// Whether a control is taken for the address bar of a browser: its
/// automation id or its name, both in lower case, holds one of the markers.
pub open spec fn marks_address_bar(
    lowercase_automation_id: Option<Seq<char>>,
    lowercase_control_name: Option<Seq<char>>,
) -> bool {
    ||| lowercase_automation_id matches Some(id) && id_marks_address_bar(id)
    ||| lowercase_control_name matches Some(name) && name_marks_address_bar(name)
}

/// The lower-case form of a text that may be absent.
pub open spec fn opt_lowercase(text: Option<Seq<char>>) -> Option<Seq<char>> {
    match text {
        Some(text) => Some(unicode_lowercase(text)),
        None => None,
    }
}

/// Tests the automation id and the name of a control, both in lower case, for
/// the markers of an address bar.
pub fn has_address_bar_marker(
    lowercase_automation_id: Option<&str>,
    lowercase_control_name: Option<&str>,
) -> (r: bool)
    ensures
        r == marks_address_bar(
            opt_str_text(lowercase_automation_id),
            opt_str_text(lowercase_control_name),
        ),
{
    let id_matches = match lowercase_automation_id {
        Some(id) => {
            let chars = to_chars(id);
            contains_text(&chars, "address") || contains_text(&chars, "searchbox") || contains_text(
                &chars,
                "urlbar",
            ) || contains_text(&chars, "omnibox")
        },
        None => false,
    };
    if id_matches {
        return true;
    }
    match lowercase_control_name {
        Some(name) => {
            let chars = to_chars(name);
            contains_text(&chars, "address and search bar") || contains_text(
                &chars,
                "search or enter address",
            ) || contains_text(&chars, "search with google or enter address") || contains_text(
                &chars,
                "address bar",
            )
        },
        None => false,
    }
}

/// Tests whether a control is likely to be the address bar of a browser, by
/// its automation id and its name in whatever case.
pub fn is_likely_browser_address_bar_candidate(
    automation_id: Option<&str>,
    control_name: Option<&str>,
) -> (r: bool)
    ensures
        r == marks_address_bar(
            opt_lowercase(opt_str_text(automation_id)),
            opt_lowercase(opt_str_text(control_name)),
        ),
{
    let normalized_automation_id = match automation_id {
        Some(id) => Some(to_lowercase(id)),
        None => None,
    };
    let normalized_control_name = match control_name {
        Some(name) => Some(to_lowercase(name)),
        None => None,
    };
    has_address_bar_marker(
        crate::text::opt_as_str(&normalized_automation_id),
        crate::text::opt_as_str(&normalized_control_name),
    )
}

/// What UI Automation gave for one edit control of the focused window: its
/// automation id, its name and the value that it shows, each as read.
#[derive(Debug)]
pub struct EditControlReading {
    pub automation_id: Option<String>,
    pub name: Option<String>,
    pub value: Option<String>,
}

/// The trimmed form of a text that may be absent.
pub open spec fn opt_normalized(text: Option<Seq<char>>) -> Option<Seq<char>> {
    match text {
        Some(text) => normalized_text(text),
        None => None,
    }
}

/// Whether an edit control is taken for the address bar of a browser.
pub open spec fn is_address_bar(control: EditControlReading) -> bool {
    marks_address_bar(
        opt_lowercase(opt_normalized(opt_text(control.automation_id))),
        opt_lowercase(opt_normalized(opt_text(control.name))),
    )
}

/// The origin that an edit control gives: that of its value, where the
/// control is taken for an address bar.
pub open spec fn edit_control_origin(control: EditControlReading) -> Option<Seq<char>> {
    if is_address_bar(control) {
        match control.value {
            Some(value) => browser_document_origin(value@),
            None => None,
        }
    } else {
        None
    }
}

/// The origin that the first edit control in the list gives that gives one.
pub open spec fn first_edit_control_origin(controls: Seq<EditControlReading>) -> Option<Seq<char>>
    decreases controls.len(),
{
    if controls.len() == 0 {
        None
    } else {
        match edit_control_origin(controls.first()) {
            Some(origin) => Some(origin),
            None => first_edit_control_origin(controls.drop_first()),
        }
    }
}

/// What the search of the edit controls gives is an origin: scheme, `://` and
/// authority, and nothing else.
pub proof fn lemma_first_edit_control_origin_is_an_origin(controls: Seq<EditControlReading>)
    ensures
        first_edit_control_origin(controls) matches Some(origin) ==> is_origin(origin),
    decreases controls.len(),
{
    if controls.len() > 0 {
        match controls.first().value {
            Some(value) => lemma_origin_is_an_origin(value@),
            None => {},
        }
        lemma_first_edit_control_origin_is_an_origin(controls.drop_first());
    }
}

/// The origin of the value that an edit control shows.
pub fn extract_normalized_origin_from_edit_control(edit_control: &EditControlReading) -> (r: Option<
    String,
>)
    ensures
        opt_text(r) == match edit_control.value {
            Some(value) => browser_document_origin(value@),
            None => None,
        },
        r matches Some(origin) ==> is_origin(origin@),
{
    match &edit_control.value {
        Some(value) => normalize_browser_document_origin(value.as_str()),
        None => None,
    }
}

fn normalized_reading(raw: &Option<String>) -> (r: Option<String>)
    ensures
        opt_text(r) == opt_normalized(opt_text(*raw)),
{
    match raw {
        Some(text) => normalize_non_empty_focus_text(text.as_str()),
        None => None,
    }
}

/// Tests whether an edit control is taken for the address bar of a browser, by
/// its automation id and its name. Its value plays no part.
pub fn is_address_bar_control(edit_control: &EditControlReading) -> (r: bool)
    ensures
        r == is_address_bar(*edit_control),
{
    let automation_id = normalized_reading(&edit_control.automation_id);
    let control_name = normalized_reading(&edit_control.name);
    is_likely_browser_address_bar_candidate(
        crate::text::opt_as_str(&automation_id),
        crate::text::opt_as_str(&control_name),
    )
}

/// Searches the edit controls of a browser's window, in the order in which UI
/// Automation lists them, for the origin of the document: that of the first
/// control that is taken for an address bar and shows a usable address.
pub fn extract_browser_document_origin_from_uia(edit_controls: &Vec<EditControlReading>) -> (r:
    Option<String>)
    ensures
        opt_text(r) == first_edit_control_origin(edit_controls@),
        r matches Some(origin) ==> is_origin(origin@),
{
    let mut i: usize = 0;
    assert(edit_controls@.subrange(0, edit_controls.len() as int) =~= edit_controls@);
    while i < edit_controls.len()
        invariant
            i <= edit_controls.len(),
            first_edit_control_origin(edit_controls@) == first_edit_control_origin(
                edit_controls@.subrange(i as int, edit_controls.len() as int),
            ),
        decreases edit_controls.len() - i,
    {
        let edit_control = &edit_controls[i];
        let ghost rest = edit_controls@.subrange(i as int, edit_controls.len() as int);
        assert(rest.first() == edit_controls@[i as int]);
        assert(rest.drop_first() =~= edit_controls@.subrange(i + 1, edit_controls.len() as int));
        if is_address_bar_control(edit_control) {
            let origin = extract_normalized_origin_from_edit_control(edit_control);
            if origin.is_some() {
                return origin;
            }
        }
        i = i + 1;
    }
    None
}

/// The browser that an application is, by the name under which it is shown.
pub open spec fn application_browser(focused_application: Option<FocusedApplication>) -> Option<
    SupportedBrowser,
> {
    match focused_application {
        Some(application) => browser_for_executable_name(
            unicode_lowercase(application.display_name@),
        ),
        None => None,
    }
}

/// Finds the browser that the application in the foreground is.
pub fn focused_application_browser(focused_application: Option<&FocusedApplication>) -> (r: Option<
    SupportedBrowser,
>)
    ensures
        r == application_browser(
            match focused_application {
                Some(application) => Some(*application),
                None => None,
            },
        ),
{
    match focused_application {
        Some(application) => supported_browser_from_application_name(
            application.display_name.as_str(),
        ),
        None => None,
    }
}

/// The snapshot that the readings of one capture on Windows make. The origin
/// of the document is the one that the search of the edit controls gives. The
/// title of the window comes from the window itself, so only an origin makes
/// UI Automation the source of the snapshot.
pub open spec fn windows_snapshot(
    focused_application: Option<FocusedApplication>,
    window_title: Option<Seq<char>>,
    edit_controls: Seq<EditControlReading>,
    captured_at: Seq<char>,
) -> ActiveAppContextSnapshotView {
    assembled_snapshot(
        match focused_application {
            Some(application) => Some(application@),
            None => None,
        },
        window_title,
        application_browser(focused_application),
        first_edit_control_origin(edit_controls),
        FocusEventSource::Uia,
        false,
        captured_at,
    )
}

/// Puts the readings of one capture on Windows together: the application that
/// owns the foreground window, the title of that window, the edit controls
/// that UI Automation lists for the window, and the time of the capture. The
/// edit controls are searched only where the application is a recognised
/// browser, so for any other application none need to be read. Where there is
/// no foreground window, application and title are absent and no edit
/// controls are there.
pub fn get_current_active_app_context(
    focused_application: Option<FocusedApplication>,
    window_title: Option<String>,
    edit_controls: &Vec<EditControlReading>,
    captured_at: String,
) -> (r: ActiveAppContextSnapshot)
    ensures
        r@ == windows_snapshot(
            focused_application,
            opt_text(window_title),
            edit_controls@,
            captured_at@,
        ),
        r@.well_formed(),
        application_browser(focused_application) is None ==> r.focused_browser_tab is None,
{
    let supported_browser = focused_application_browser(
        match &focused_application {
            Some(application) => Some(application),
            None => None,
        },
    );
    let browser_document_origin = if supported_browser.is_some() {
        extract_browser_document_origin_from_uia(edit_controls)
    } else {
        None
    };
    assemble_snapshot(
        focused_application,
        window_title,
        supported_browser,
        browser_document_origin,
        FocusEventSource::Uia,
        false,
        captured_at,
    )
}

/// What the system answers when COM is asked for on a thread that has it in
/// another mode already.
pub const RPC_E_CHANGED_MODE: i32 = -2147417850;

/// The use of COM on this thread for one reading of UI Automation.
#[derive(Debug, Clone, Copy, PartialEq, Eq, Structural)]
pub struct ComApartmentInitializationGuard {
    /// Whether COM is to be given up on this thread when the reading is
    /// done.
    pub should_call_co_uninitialize_on_drop: bool,
}

impl ComApartmentInitializationGuard {
    /// Whether COM can be used after the system's answer to the request for
    /// it, and whether it is to be given up after: it is where the request
    /// was granted, and not where the thread had COM in another mode already.
    /// Any other answer means that COM cannot be used.
    pub fn initialize_single_threaded(co_initialize_result: i32) -> (r: Option<Self>)
        ensures
            r == if co_initialize_result >= 0 {
                Some(ComApartmentInitializationGuard { should_call_co_uninitialize_on_drop: true })
            } else if co_initialize_result == RPC_E_CHANGED_MODE {
                Some(
                    ComApartmentInitializationGuard { should_call_co_uninitialize_on_drop: false },
                )
            } else {
                None
            },
    {
        if co_initialize_result >= 0 {
            Some(ComApartmentInitializationGuard { should_call_co_uninitialize_on_drop: true })
        } else if co_initialize_result == RPC_E_CHANGED_MODE {
            Some(ComApartmentInitializationGuard { should_call_co_uninitialize_on_drop: false })
        } else {
            None
        }
    }
}

/// The title of the foreground window as the system wrote it into a buffer:
/// there is none where the system wrote nothing.
pub fn window_title_length(written: i32, capacity: usize) -> (r: Option<usize>)
    ensures
        r == if 0 < written <= capacity {
            Some(written as usize)
        } else {
            None
        },
{
    if written <= 0 {
        None
    } else if written as usize <= capacity {
        Some(written as usize)
    } else {
        None
    }
}

} // verus!
