//! Export files and import: which file is which, whether a file can be read
//! by this version, and how a prompt is written to a file and read back.

use crate::settings::HttpSyncedSetting;
use crate::settings::LocalOnlySetting;
use crate::settings::RtviSyncedSetting;
use crate::settings::SettingClass;
use crate::text::decimal;
use crate::text::find;
use crate::text::find_first;
use crate::text::first_position;
use crate::text::is_text;
use crate::text::lemma_find_first;
use crate::text::lemma_position_first;
use crate::text::occurs_at;
use crate::text::occurs_at_index;
use crate::text::position;
use crate::text::slice_chars;
use crate::text::str_eq;
use crate::text::to_chars;
use crate::text::trim;
use crate::text::trim_bounds;
use crate::text::trim_str;
use crate::text::u32_to_decimal;
use crate::text::CharClass;
use vstd::prelude::*;

verus! {

/// The version of the export format that this crate writes: the highest that
/// it reads.
pub const EXPORT_VERSION: u32 = 1;

/// What a settings export names as its type.
pub const SETTINGS_EXPORT_TYPE: &'static str = "tambourine-settings";

/// What a history export names as its type.
pub const HISTORY_EXPORT_TYPE: &'static str = "tambourine-history";

/// What an export file tells of itself at its top.
#[derive(Debug)]
pub struct FileTypeProbe {
    pub file_type: Option<String>,
    pub version: Option<u32>,
}

/// What kind of export a file is.
#[derive(Debug, Clone, Copy, PartialEq, Eq, Structural)]
pub enum DetectedFileType {
    Settings,
    History,
    Unknown,
}

/// The kind of export that a probe shows: the kind that it names, where its
/// version is one that this crate reads. A file without a probe, without a
/// version, of a later version or of another type is unknown.
pub open spec fn detected_file_type(probe: Option<FileTypeProbe>) -> DetectedFileType {
    match probe {
        Some(probe) => match (probe.file_type, probe.version) {
            (Some(file_type), Some(version)) => if version > EXPORT_VERSION {
                DetectedFileType::Unknown
            } else if file_type@ == SETTINGS_EXPORT_TYPE@ {
                DetectedFileType::Settings
            } else if file_type@ == HISTORY_EXPORT_TYPE@ {
                DetectedFileType::History
            } else {
                DetectedFileType::Unknown
            },
            _ => DetectedFileType::Unknown,
        },
        None => DetectedFileType::Unknown,
    }
}

/// Tells the kind of export from what the file's top could be read as;
/// `None` stands for a file that could not be read.
pub fn detect_export_file_type(probe: Option<&FileTypeProbe>) -> (r: DetectedFileType)
    ensures
        r == detected_file_type(
            match probe {
                Some(probe) => Some(*probe),
                None => None,
            },
        ),
{
    let probe = match probe {
        Some(probe) => probe,
        None => {
            return DetectedFileType::Unknown;
        },
    };
    let file_type = match &probe.file_type {
        Some(file_type) => file_type,
        None => {
            return DetectedFileType::Unknown;
        },
    };
    let version_is_supported = match probe.version {
        Some(version) => version <= EXPORT_VERSION,
        None => false,
    };
    if str_eq(file_type.as_str(), SETTINGS_EXPORT_TYPE) {
        if version_is_supported {
            DetectedFileType::Settings
        } else {
            DetectedFileType::Unknown
        }
    } else if str_eq(file_type.as_str(), HISTORY_EXPORT_TYPE) {
        if version_is_supported {
            DetectedFileType::History
        } else {
            DetectedFileType::Unknown
        }
    } else {
        DetectedFileType::Unknown
    }
}

/// Why an export file is not imported.
#[derive(Debug, Clone, Copy, PartialEq, Eq, Structural)]
pub enum ExportHeaderFault {
    /// The file is of another type than the one that is to be imported.
    InvalidFileType,
    /// The file is of a later version than this crate reads.
    UnsupportedVersion,
}

/// What is wrong with the top of an export file, if anything: first its type
/// is held against the expected one, then its version against
/// `EXPORT_VERSION`.
pub open spec fn export_header_fault(
    file_type: Seq<char>,
    version: u32,
    expected_type: Seq<char>,
) -> Option<ExportHeaderFault> {
    if file_type != expected_type {
        Some(ExportHeaderFault::InvalidFileType)
    } else if version > EXPORT_VERSION {
        Some(ExportHeaderFault::UnsupportedVersion)
    } else {
        None
    }
}

/// The words in which a fault of an export file's top is reported.
pub open spec fn export_header_message(
    fault: ExportHeaderFault,
    file_type: Seq<char>,
    version: u32,
    expected_type: Seq<char>,
) -> Seq<char> {
    match fault {
        ExportHeaderFault::InvalidFileType => "Invalid file type: expected '"@ + expected_type
            + "', got '"@ + file_type + "'"@,
        ExportHeaderFault::UnsupportedVersion => "Unsupported version: file is version "@
            + decimal(version as nat) + ", max supported is "@ + decimal(EXPORT_VERSION as nat),
    }
}

/// Checks the top of an export file against the type that is to be imported
/// and the version that this crate reads.
pub fn validate_export_header(file_type: &str, version: u32, expected_type: &str) -> (r: Result<
    (),
    String,
>)
    ensures
        match r {
            Ok(_) => export_header_fault(file_type@, version, expected_type@) is None,
            Err(message) => export_header_fault(file_type@, version, expected_type@) matches Some(
                fault,
            ) && message@ == export_header_message(fault, file_type@, version, expected_type@),
        },
{
    if !str_eq(file_type, expected_type) {
        return Err(
            String::from_str("Invalid file type: expected '").concat(expected_type).concat(
                "', got '",
            ).concat(file_type).concat("'"),
        );
    }
    if version > EXPORT_VERSION {
        return Err(
            String::from_str("Unsupported version: file is version ").concat(
                u32_to_decimal(version).as_str(),
            ).concat(", max supported is ").concat(u32_to_decimal(EXPORT_VERSION).as_str()),
        );
    }
    Ok(())
}

/// What a prompt file starts with, before the name of its section.
pub const PROMPT_COMMENT_PREFIX: &'static str = "<!-- tambourine-prompt: ";

/// What follows the name of the section at the start of a prompt file.
pub const PROMPT_COMMENT_SUFFIX: &'static str = " -->";

/// How the text of a prompt section is chosen.
#[derive(Debug)]
pub enum PromptMode {
    /// The default text is used.
    Auto,
    /// The user's text is used.
    Manual { content: String },
}

/// A `PromptMode` as plain text.
pub enum PromptModeView {
    Auto,
    Manual { content: Seq<char> },
}

impl View for PromptMode {
    type V = PromptModeView;

    open spec fn view(&self) -> PromptModeView {
        match self {
            PromptMode::Auto => PromptModeView::Auto,
            PromptMode::Manual { content } => PromptModeView::Manual { content: content@ },
        }
    }
}

/// The text of a prompt file: a comment that names the section, whether the
/// section is used, how its text is chosen, a rule, and the user's text where
/// there is one.
pub open spec fn prompt_export(section_name: Seq<char>, enabled: bool, mode: PromptModeView) -> Seq<
    char,
> {
    PROMPT_COMMENT_PREFIX@ + section_name + PROMPT_COMMENT_SUFFIX@ + "\nenabled: "@ + (if enabled {
        "true"@
    } else {
        "false"@
    }) + "\nmode: "@ + (match mode {
        PromptModeView::Auto => "auto"@,
        PromptModeView::Manual { .. } => "manual"@,
    }) + "\n---\n"@ + (match mode {
        PromptModeView::Auto => Seq::empty(),
        PromptModeView::Manual { content } => content,
    })
}

/// Writes a prompt section as the text of a prompt file.
pub fn format_prompt_export(section_name: &str, enabled: bool, prompt_mode: &PromptMode) -> (r:
    String)
    ensures
        r@ == prompt_export(section_name@, enabled, prompt_mode@),
{
    let head = String::from_str(PROMPT_COMMENT_PREFIX).concat(section_name).concat(
        PROMPT_COMMENT_SUFFIX,
    ).concat("\nenabled: ").concat(if enabled {
        "true"
    } else {
        "false"
    }).concat("\nmode: ");
    match prompt_mode {
        PromptMode::Auto => {
            let r = head.concat("auto").concat("\n---\n");
            assert(r@ =~= prompt_export(section_name@, enabled, prompt_mode@));
            r
        },
        PromptMode::Manual { content } => head.concat("manual").concat("\n---\n").concat(
            content.as_str(),
        ),
    }
}

/// Why a text is no prompt file.
#[derive(Debug, Clone, Copy, PartialEq, Eq, Structural)]
pub enum PromptFileFault {
    /// The text does not start with the comment that names the section.
    MissingHeader,
    /// The comment that names the section is not closed.
    MalformedHeader,
}

impl PromptFileFault {
    /// The fault in words.
    pub open spec fn message(self) -> Seq<char> {
        match self {
            PromptFileFault::MissingHeader => "Not a valid prompt file: missing header comment"@,
            PromptFileFault::MalformedHeader => {
                "Not a valid prompt file: malformed header comment"@
            },
        }
    }

    /// The fault in words.
    pub fn to_string(&self) -> (r: String)
        ensures
            r@ == self.message(),
    {
        match self {
            PromptFileFault::MissingHeader => String::from_str(
                "Not a valid prompt file: missing header comment",
            ),
            PromptFileFault::MalformedHeader => String::from_str(
                "Not a valid prompt file: malformed header comment",
            ),
        }
    }
}

/// The name of the section and the content that a prompt file holds.
///
/// The text is trimmed. It has to start with `PROMPT_COMMENT_PREFIX`; the
/// name of the section is what stands between that and the first
/// `PROMPT_COMMENT_SUFFIX` behind it, trimmed, and the content is all that
/// follows, trimmed.
pub open spec fn parsed_prompt_file(content: Seq<char>) -> Result<
    (Seq<char>, Seq<char>),
    PromptFileFault,
> {
    let trimmed = trim(content);
    let prefix = PROMPT_COMMENT_PREFIX@;
    let suffix = PROMPT_COMMENT_SUFFIX@;
    if !occurs_at(trimmed, prefix, 0) {
        Err(PromptFileFault::MissingHeader)
    } else {
        let after_prefix = trimmed.subrange(prefix.len() as int, trimmed.len() as int);
        match find(after_prefix, suffix) {
            None => Err(PromptFileFault::MalformedHeader),
            Some(at) => Ok(
                (
                    trim(after_prefix.subrange(0, at)),
                    trim(after_prefix.subrange(at + suffix.len(), after_prefix.len() as int)),
                ),
            ),
        }
    }
}

/// Reads a prompt file: the name of its section, and its content.
pub fn parse_prompt_file(content: &str) -> (r: Result<(String, String), PromptFileFault>)
    ensures
        match r {
            Ok(parts) => parsed_prompt_file(content@) == Ok::<
                (Seq<char>, Seq<char>),
                PromptFileFault,
            >((parts.0@, parts.1@)),
            Err(fault) => parsed_prompt_file(content@) == Err::<
                (Seq<char>, Seq<char>),
                PromptFileFault,
            >(fault),
        },
{
    let trimmed = trim_str(content);
    let trimmed_chars = to_chars(trimmed);
    let prefix = to_chars(PROMPT_COMMENT_PREFIX);
    let suffix = to_chars(PROMPT_COMMENT_SUFFIX);
    if !occurs_at_index(&trimmed_chars, &prefix, 0) {
        return Err(PromptFileFault::MissingHeader);
    }
    let after_prefix = trimmed.substring_char(prefix.len(), trimmed_chars.len());
    let after_prefix_chars = to_chars(after_prefix);
    proof {
        lemma_find_first(after_prefix_chars@, suffix@);
    }
    match find_first(&after_prefix_chars, &suffix) {
        None => Err(PromptFileFault::MalformedHeader),
        Some(at) => {
            assert(occurs_at(after_prefix_chars@, suffix@, at as int));
            let section_name = trim_str(after_prefix.substring_char(0, at));
            let prompt_content = trim_str(
                after_prefix.substring_char(at + suffix.len(), after_prefix_chars.len()),
            );
            Ok((section_name.to_owned(), prompt_content.to_owned()))
        },
    }
}

/// A line without the carriage return that stands before its line feed.
pub open spec fn without_carriage_return(line: Seq<char>) -> Seq<char> {
    if line.len() > 0 && line.last() == '\r' {
        line.drop_last()
    } else {
        line
    }
}

/// The lines of a text. A line ends with a line feed, or with a carriage
/// return and a line feed, and neither belongs to the line; the last line
/// need not end so. A text that ends with a line ending has no empty line
/// behind it.
pub open spec fn lines(s: Seq<char>) -> Seq<Seq<char>>
    decreases s.len(),
{
    if s.len() == 0 {
        Seq::empty()
    } else {
        let end = position(s, CharClass::LineFeed);
        if 0 <= end < s.len() {
            seq![without_carriage_return(s.subrange(0, end))] + lines(
                s.subrange(end + 1, s.len() as int),
            )
        } else {
            seq![s]
        }
    }
}

/// What follows `key` in the first line that starts with `key`.
pub open spec fn value_after(lines: Seq<Seq<char>>, key: Seq<char>) -> Option<Seq<char>>
    decreases lines.len(),
{
    if lines.len() == 0 {
        None
    } else if occurs_at(lines.first(), key, 0) {
        Some(lines.first().subrange(key.len() as int, lines.first().len() as int))
    } else {
        value_after(lines.drop_first(), key)
    }
}

/// The index of the first line that, trimmed, is `marker`.
pub open spec fn marker_line(lines: Seq<Seq<char>>, marker: Seq<char>) -> Option<int>
    decreases lines.len(),
{
    if lines.len() == 0 {
        None
    } else if trim(lines.first()) == marker {
        Some(0)
    } else {
        match marker_line(lines.drop_first(), marker) {
            Some(index) => Some(index + 1),
            None => None,
        }
    }
}

/// The lines of a list, with a line feed between each two.
pub open spec fn joined(lines: Seq<Seq<char>>) -> Seq<char>
    decreases lines.len(),
{
    if lines.len() == 0 {
        Seq::empty()
    } else if lines.len() == 1 {
        lines.first()
    } else {
        joined(lines.drop_last()) + seq!['\n'] + lines.last()
    }
}

/// A prompt section as it is read from the text of an import.
#[derive(Debug)]
pub struct ImportedPrompt {
    pub enabled: bool,
    pub prompt_mode: PromptMode,
}

/// Whether the text of an import switches its section on: it does unless its
/// first line that starts with `enabled:` says something else than `true`.
pub open spec fn imported_enabled(content: Seq<char>) -> bool {
    match value_after(lines(content), "enabled:"@) {
        Some(value) => trim(value) == "true"@,
        None => true,
    }
}

/// Whether the text of an import gives the user's own text: it does where its
/// first line that starts with `mode:` says `manual`.
pub open spec fn imported_is_manual(content: Seq<char>) -> bool {
    match value_after(lines(content), "mode:"@) {
        Some(value) => trim(value) == "manual"@,
        None => false,
    }
}

/// The user's text in the text of an import: the lines behind the first line
/// that is a rule `---`, and the whole text where there is no rule.
pub open spec fn imported_body(content: Seq<char>) -> Seq<char> {
    match marker_line(lines(content), "---"@) {
        Some(index) => joined(lines(content).skip(index + 1)),
        None => content,
    }
}

/// The sections of a text between the line feeds, as ranges of indices.
pub open spec fn range_texts(s: Seq<char>, ranges: Seq<(usize, usize)>) -> Seq<Seq<char>> {
    ranges.map_values(|range: (usize, usize)| s.subrange(range.0 as int, range.1 as int))
}

/// Splits a text into its lines, each given by where it starts and ends.
fn line_ranges(chars: &Vec<char>) -> (r: Vec<(usize, usize)>)
    ensures
        range_texts(chars@, r@) == lines(chars@),
        forall|i: int| 0 <= i < r@.len() ==> (#[trigger] r@[i]).0 <= r@[i].1 <= chars.len(),
{
    let n: usize = chars.len();
    let mut ranges: Vec<(usize, usize)> = Vec::new();
    let mut start: usize = 0;
    assert(chars@.subrange(0, n as int) =~= chars@);
    assert(range_texts(chars@, ranges@) =~= Seq::<Seq<char>>::empty());
    while start < n
        invariant
            start <= n == chars.len(),
            forall|i: int|
                0 <= i < ranges@.len() ==> (#[trigger] ranges@[i]).0 <= ranges@[i].1 <= chars.len(),
            lines(chars@) == range_texts(chars@, ranges@) + lines(
                chars@.subrange(start as int, n as int),
            ),
        decreases n - start,
    {
        let ghost rest = chars@.subrange(start as int, n as int);
        let ghost before = ranges@;
        let end = first_position(chars, start, n, CharClass::LineFeed);
        proof {
            lemma_position_first(rest, CharClass::LineFeed);
        }
        if end == n {
            ranges.push((start, n));
            proof {
                assert(lines(rest) =~= seq![rest]);
                assert(chars@.subrange(n as int, n as int) =~= Seq::<char>::empty());
                assert(range_texts(chars@, ranges@) =~= range_texts(chars@, before) + seq![rest]);
            }
            start = n;
        } else {
            let line_end: usize = if end > start && chars[end - 1] == '\r' {
                end - 1
            } else {
                end
            };
            ranges.push((start, line_end));
            proof {
                let line = rest.subrange(0, end - start);
                assert(line =~= chars@.subrange(start as int, end as int));
                if end > start {
                    assert(line.last() == chars@[end - 1]);
                }
                assert(without_carriage_return(line) =~= chars@.subrange(
                    start as int,
                    line_end as int,
                ));
                assert(rest.subrange(end - start + 1, rest.len() as int) =~= chars@.subrange(
                    end + 1,
                    n as int,
                ));
                assert(range_texts(chars@, ranges@) =~= range_texts(chars@, before) + seq![
                    without_carriage_return(line),
                ]);
            }
            start = end + 1;
        }
    }
    assert(lines(chars@.subrange(n as int, n as int)) =~= Seq::<Seq<char>>::empty());
    assert(range_texts(chars@, ranges@) + Seq::<Seq<char>>::empty() =~= range_texts(
        chars@,
        ranges@,
    ));
    ranges
}

/// Finds what follows `key` in the first line that starts with `key`.
fn find_value_after(chars: &Vec<char>, ranges: &Vec<(usize, usize)>, key: &str) -> (r: Option<
    Vec<char>,
>)
    requires
        forall|i: int| 0 <= i < ranges@.len() ==> (#[trigger] ranges@[i]).0 <= ranges@[i].1
            <= chars.len(),
    ensures
        match r {
            Some(value) => value_after(range_texts(chars@, ranges@), key@) == Some(value@),
            None => value_after(range_texts(chars@, ranges@), key@) is None,
        },
{
    let key_chars = to_chars(key);
    let ghost all = range_texts(chars@, ranges@);
    let mut i: usize = 0;
    assert(all.skip(0) =~= all);
    while i < ranges.len()
        invariant
            i <= ranges.len(),
            key_chars@ == key@,
            all == range_texts(chars@, ranges@),
            forall|k: int| 0 <= k < ranges@.len() ==> (#[trigger] ranges@[k]).0 <= ranges@[k].1
                <= chars.len(),
            value_after(all, key@) == value_after(all.skip(i as int), key@),
        decreases ranges.len() - i,
    {
        let (start, end) = ranges[i];
        let ghost line = all.skip(i as int).first();
        assert(line == chars@.subrange(start as int, end as int));
        assert(all.skip(i as int).drop_first() =~= all.skip(i + 1));
        let line_chars = slice_chars(chars, start, end);
        if occurs_at_index(&line_chars, &key_chars, 0) {
            let value = slice_chars(&line_chars, key_chars.len(), line_chars.len());
            return Some(value);
        }
        i = i + 1;
    }
    None
}

/// Tests whether a text, trimmed, is `literal`.
fn trimmed_is(text: &Vec<char>, literal: &str) -> (r: bool)
    ensures
        r == (trim(text@) == literal@),
{
    let (start, end) = trim_bounds(text);
    let trimmed = slice_chars(text, start, end);
    is_text(&trimmed, literal)
}

/// Finds the first line that, trimmed, is `marker`.
fn find_marker_line(chars: &Vec<char>, ranges: &Vec<(usize, usize)>, marker: &str) -> (r: Option<
    usize,
>)
    requires
        forall|i: int| 0 <= i < ranges@.len() ==> (#[trigger] ranges@[i]).0 <= ranges@[i].1
            <= chars.len(),
    ensures
        match r {
            Some(index) => index < ranges@.len() && marker_line(
                range_texts(chars@, ranges@),
                marker@,
            ) == Some(index as int),
            None => marker_line(range_texts(chars@, ranges@), marker@) is None,
        },
{
    let ghost all = range_texts(chars@, ranges@);
    let mut i: usize = 0;
    assert(all.skip(0) =~= all);
    while i < ranges.len()
        invariant
            i <= ranges.len(),
            all == range_texts(chars@, ranges@),
            forall|k: int| 0 <= k < ranges@.len() ==> (#[trigger] ranges@[k]).0 <= ranges@[k].1
                <= chars.len(),
            marker_line(all, marker@) == match marker_line(all.skip(i as int), marker@) {
                Some(index) => Some(index + i),
                None => None,
            },
        decreases ranges.len() - i,
    {
        let (start, end) = ranges[i];
        let ghost line = all.skip(i as int).first();
        assert(line == chars@.subrange(start as int, end as int));
        assert(all.skip(i as int).drop_first() =~= all.skip(i + 1));
        let line_chars = slice_chars(chars, start, end);
        if trimmed_is(&line_chars, marker) {
            return Some(i);
        }
        i = i + 1;
    }
    None
}

/// Joins the lines behind the line `after`, with a line feed between each
/// two.
fn join_lines_after(
    content: &str,
    chars: &Vec<char>,
    ranges: &Vec<(usize, usize)>,
    after: usize,
) -> (r: String)
    requires
        chars@ == content@,
        after < ranges@.len(),
        forall|i: int| 0 <= i < ranges@.len() ==> (#[trigger] ranges@[i]).0 <= ranges@[i].1
            <= chars.len(),
    ensures
        r@ == joined(range_texts(chars@, ranges@).skip(after + 1)),
{
    let line_count: usize = ranges.len();
    let from: usize = after + 1;
    let ghost wanted = range_texts(chars@, ranges@).skip(from as int);
    let mut text = String::new();
    let mut i: usize = from;
    assert(wanted.take(0) =~= Seq::<Seq<char>>::empty());
    while i < line_count
        invariant
            from <= i <= line_count == ranges.len(),
            chars@ == content@,
            wanted == range_texts(chars@, ranges@).skip(from as int),
            forall|k: int| 0 <= k < ranges@.len() ==> (#[trigger] ranges@[k]).0 <= ranges@[k].1
                <= chars.len(),
            text@ == joined(wanted.take(i - from)),
        decreases line_count - i,
    {
        let (start, end) = ranges[i];
        proof {
            let shown = wanted.take(i - from + 1);
            assert(shown.drop_last() =~= wanted.take(i - from));
            assert(shown.last() == chars@.subrange(start as int, end as int));
        }
        if i > from {
            text = text.concat("\n");
            proof {
                reveal_strlit("\n");
                assert("\n"@ =~= seq!['\n']);
            }
        }
        text = text.concat(content.substring_char(start, end));
        proof {
            if i == from {
                assert(text@ =~= chars@.subrange(start as int, end as int));
            }
        }
        i = i + 1;
    }
    assert(wanted.take(wanted.len() as int) =~= wanted);
    text
}

/// Reads a prompt section from the text of an import.
///
/// The text is read line by line. The section is switched on unless the first
/// line that starts with `enabled:` says something else than `true`. It uses
/// the user's text where the first line that starts with `mode:` says
/// `manual`; that text is what follows the first rule `---`, and the whole
/// text where there is no rule.
pub fn parse_imported_prompt(content: &str) -> (r: ImportedPrompt)
    ensures
        r.enabled == imported_enabled(content@),
        r.prompt_mode@ == if imported_is_manual(content@) {
            PromptModeView::Manual { content: imported_body(content@) }
        } else {
            PromptModeView::Auto
        },
{
    let chars = to_chars(content);
    let ranges = line_ranges(&chars);
    let enabled = match find_value_after(&chars, &ranges, "enabled:") {
        Some(value) => trimmed_is(&value, "true"),
        None => true,
    };
    let is_manual = match find_value_after(&chars, &ranges, "mode:") {
        Some(value) => trimmed_is(&value, "manual"),
        None => false,
    };
    let prompt_mode = if is_manual {
        let prompt_content = match find_marker_line(&chars, &ranges, "---") {
            Some(index) => join_lines_after(content, &chars, &ranges, index),
            None => content.to_owned(),
        };
        PromptMode::Manual { content: prompt_content }
    } else {
        PromptMode::Auto
    };
    ImportedPrompt { enabled, prompt_mode }
}

/// The settings that an export holds and an import writes, in the order in
/// which they are written. The sections of the cleanup prompt are not among
/// them: they travel as prompt files.
pub open spec fn import_export_settings() -> Seq<SettingClass> {
    seq![
        SettingClass::LocalOnly(LocalOnlySetting::ToggleHotkey),
        SettingClass::LocalOnly(LocalOnlySetting::HoldHotkey),
        SettingClass::LocalOnly(LocalOnlySetting::PasteLastHotkey),
        SettingClass::LocalOnly(LocalOnlySetting::SelectedMicId),
        SettingClass::LocalOnly(LocalOnlySetting::SoundEnabled),
        SettingClass::ServerSyncedRtvi(RtviSyncedSetting::SttProvider),
        SettingClass::ServerSyncedRtvi(RtviSyncedSetting::LlmProvider),
        SettingClass::LocalOnly(LocalOnlySetting::AutoMuteAudio),
        SettingClass::ServerSyncedHttp(HttpSyncedSetting::SttTimeoutSeconds),
        SettingClass::ServerSyncedHttp(HttpSyncedSetting::LlmFormattingEnabled),
        SettingClass::LocalOnly(LocalOnlySetting::ServerUrl),
        SettingClass::LocalOnly(LocalOnlySetting::SendActiveAppContextEnabled),
    ]
}

/// The settings that a factory reset writes anew, in the order in which they
/// are written.
pub open spec fn factory_reset_settings() -> Seq<SettingClass> {
    seq![
        SettingClass::LocalOnly(LocalOnlySetting::ToggleHotkey),
        SettingClass::LocalOnly(LocalOnlySetting::HoldHotkey),
        SettingClass::LocalOnly(LocalOnlySetting::PasteLastHotkey),
        SettingClass::LocalOnly(LocalOnlySetting::SoundEnabled),
        SettingClass::ServerSyncedRtvi(RtviSyncedSetting::SttProvider),
        SettingClass::ServerSyncedRtvi(RtviSyncedSetting::LlmProvider),
        SettingClass::LocalOnly(LocalOnlySetting::AutoMuteAudio),
        SettingClass::LocalOnly(LocalOnlySetting::ServerUrl),
        SettingClass::LocalOnly(LocalOnlySetting::SendActiveAppContextEnabled),
    ]
}

/// Lists the settings that an export holds and an import writes.
pub fn import_export_setting_classes() -> (r: Vec<SettingClass>)
    ensures
        r@ == import_export_settings(),
{
    let mut classes: Vec<SettingClass> = Vec::new();
    classes.push(SettingClass::LocalOnly(LocalOnlySetting::ToggleHotkey));
    classes.push(SettingClass::LocalOnly(LocalOnlySetting::HoldHotkey));
    classes.push(SettingClass::LocalOnly(LocalOnlySetting::PasteLastHotkey));
    classes.push(SettingClass::LocalOnly(LocalOnlySetting::SelectedMicId));
    classes.push(SettingClass::LocalOnly(LocalOnlySetting::SoundEnabled));
    classes.push(SettingClass::ServerSyncedRtvi(RtviSyncedSetting::SttProvider));
    classes.push(SettingClass::ServerSyncedRtvi(RtviSyncedSetting::LlmProvider));
    classes.push(SettingClass::LocalOnly(LocalOnlySetting::AutoMuteAudio));
    classes.push(SettingClass::ServerSyncedHttp(HttpSyncedSetting::SttTimeoutSeconds));
    classes.push(SettingClass::ServerSyncedHttp(HttpSyncedSetting::LlmFormattingEnabled));
    classes.push(SettingClass::LocalOnly(LocalOnlySetting::ServerUrl));
    classes.push(SettingClass::LocalOnly(LocalOnlySetting::SendActiveAppContextEnabled));
    assert(classes@ =~= import_export_settings());
    classes
}

/// Lists the settings that a factory reset writes anew.
pub fn factory_reset_setting_classes() -> (r: Vec<SettingClass>)
    ensures
        r@ == factory_reset_settings(),
{
    let mut classes: Vec<SettingClass> = Vec::new();
    classes.push(SettingClass::LocalOnly(LocalOnlySetting::ToggleHotkey));
    classes.push(SettingClass::LocalOnly(LocalOnlySetting::HoldHotkey));
    classes.push(SettingClass::LocalOnly(LocalOnlySetting::PasteLastHotkey));
    classes.push(SettingClass::LocalOnly(LocalOnlySetting::SoundEnabled));
    classes.push(SettingClass::ServerSyncedRtvi(RtviSyncedSetting::SttProvider));
    classes.push(SettingClass::ServerSyncedRtvi(RtviSyncedSetting::LlmProvider));
    classes.push(SettingClass::LocalOnly(LocalOnlySetting::AutoMuteAudio));
    classes.push(SettingClass::LocalOnly(LocalOnlySetting::ServerUrl));
    classes.push(SettingClass::LocalOnly(LocalOnlySetting::SendActiveAppContextEnabled));
    assert(classes@ =~= factory_reset_settings());
    classes
}

/// Which step of bringing a running application in line with its settings
/// failed.
#[derive(Debug, Clone, Copy, PartialEq, Eq, Structural)]
pub enum RuntimeApplyWarningCode {
    FocusWatcherReconcile,
    PromptSectionsSync,
    SttTimeoutSync,
    LlmFormattingSync,
}

/// A step of bringing a running application in line with its settings that
/// was taken.
#[derive(Debug, Clone, Copy, PartialEq, Eq, Structural)]
pub enum RuntimeApplyAction {
    FocusWatcherEnabled,
    FocusWatcherDisabled,
    PromptSectionsSynced,
    SttTimeoutSynced,
    LlmFormattingSynced,
}

/// A step that failed, with the setting that it was taken for.
#[derive(Debug)]
pub struct RuntimeApplyWarning {
    pub code: RuntimeApplyWarningCode,
    pub message: String,
    pub setting_key: SettingClass,
}

/// A `RuntimeApplyWarning` as plain text.
pub struct RuntimeApplyWarningView {
    pub code: RuntimeApplyWarningCode,
    pub message: Seq<char>,
    pub setting_key: SettingClass,
}

impl View for RuntimeApplyWarning {
    type V = RuntimeApplyWarningView;

    open spec fn view(&self) -> RuntimeApplyWarningView {
        RuntimeApplyWarningView {
            code: self.code,
            message: self.message@,
            setting_key: self.setting_key,
        }
    }
}

impl Clone for RuntimeApplyWarning {
    fn clone(&self) -> (r: Self)
        ensures
            r == *self,
    {
        RuntimeApplyWarning {
            code: self.code,
            message: self.message.clone(),
            setting_key: self.setting_key,
        }
    }
}

/// A step that was taken, with the setting that it was taken for.
#[derive(Debug, Clone, Copy, PartialEq, Eq, Structural)]
pub struct RuntimeActionApplied {
    pub action: RuntimeApplyAction,
    pub setting_key: SettingClass,
}

/// How bringing a running application in line with its settings went.
#[derive(Debug)]
pub struct RuntimeApplyOutcome {
    pub warnings: Vec<RuntimeApplyWarning>,
    pub runtime_actions_applied: Vec<RuntimeActionApplied>,
}

/// A `RuntimeApplyOutcome` as plain text.
pub struct RuntimeApplyOutcomeView {
    pub warnings: Seq<RuntimeApplyWarningView>,
    pub runtime_actions_applied: Seq<RuntimeActionApplied>,
}

impl View for RuntimeApplyOutcome {
    type V = RuntimeApplyOutcomeView;

    open spec fn view(&self) -> RuntimeApplyOutcomeView {
        RuntimeApplyOutcomeView {
            warnings: self.warnings@.map_values(|warning: RuntimeApplyWarning| warning@),
            runtime_actions_applied: self.runtime_actions_applied@,
        }
    }
}

impl Default for RuntimeApplyOutcome {
    fn default() -> (r: Self)
        ensures
            r@ == (RuntimeApplyOutcomeView {
                warnings: Seq::empty(),
                runtime_actions_applied: Seq::empty(),
            }),
    {
        let r = RuntimeApplyOutcome { warnings: Vec::new(), runtime_actions_applied: Vec::new() };
        assert(r@.warnings =~= Seq::<RuntimeApplyWarningView>::empty());
        r
    }
}

/// What an import or a factory reset gives back.
pub type ImportSettingsOutcome = RuntimeApplyOutcome;

/// What a factory reset gives back.
pub type FactoryResetOutcome = RuntimeApplyOutcome;

/// Makes the warning of a failed step.
pub fn apply_runtime_warning(
    code: RuntimeApplyWarningCode,
    setting_key: SettingClass,
    message: String,
) -> (r: RuntimeApplyWarning)
    ensures
        r == (RuntimeApplyWarning { code, message, setting_key }),
{
    RuntimeApplyWarning { code, message, setting_key }
}

/// Makes the record of a step that was taken.
pub fn apply_runtime_action(action: RuntimeApplyAction, setting_key: SettingClass) -> (r:
    RuntimeActionApplied)
    ensures
        r == (RuntimeActionApplied { action, setting_key }),
{
    RuntimeActionApplied { action, setting_key }
}

/// The steps by which a running application is brought in line with its
/// settings.
#[derive(Debug, Clone, Copy, PartialEq, Eq, Structural)]
pub enum RuntimeSyncStep {
    /// The focus watcher is started or stopped, as the flag says.
    FocusWatcher { enabled: bool },
    /// The sections of the cleanup prompt are sent to the server.
    PromptSections,
    /// The timeout of the transcription is sent to the server.
    SttTimeout,
    /// Whether the text is formatted by a language model is sent to the
    /// server.
    LlmFormatting,
}

impl RuntimeSyncStep {
    /// The setting that the step is taken for.
    pub open spec fn setting_key(self) -> SettingClass {
        match self {
            RuntimeSyncStep::FocusWatcher { .. } => SettingClass::LocalOnly(
                LocalOnlySetting::SendActiveAppContextEnabled,
            ),
            RuntimeSyncStep::PromptSections => SettingClass::ServerSyncedHttp(
                HttpSyncedSetting::CleanupPromptSections,
            ),
            RuntimeSyncStep::SttTimeout => SettingClass::ServerSyncedHttp(
                HttpSyncedSetting::SttTimeoutSeconds,
            ),
            RuntimeSyncStep::LlmFormatting => SettingClass::ServerSyncedHttp(
                HttpSyncedSetting::LlmFormattingEnabled,
            ),
        }
    }

    /// What is recorded when the step was taken.
    pub open spec fn action(self) -> RuntimeApplyAction {
        match self {
            RuntimeSyncStep::FocusWatcher { enabled } => if enabled {
                RuntimeApplyAction::FocusWatcherEnabled
            } else {
                RuntimeApplyAction::FocusWatcherDisabled
            },
            RuntimeSyncStep::PromptSections => RuntimeApplyAction::PromptSectionsSynced,
            RuntimeSyncStep::SttTimeout => RuntimeApplyAction::SttTimeoutSynced,
            RuntimeSyncStep::LlmFormatting => RuntimeApplyAction::LlmFormattingSynced,
        }
    }

    /// Under which code the failure of the step is recorded.
    pub open spec fn warning_code(self) -> RuntimeApplyWarningCode {
        match self {
            RuntimeSyncStep::FocusWatcher { .. } => RuntimeApplyWarningCode::FocusWatcherReconcile,
            RuntimeSyncStep::PromptSections => RuntimeApplyWarningCode::PromptSectionsSync,
            RuntimeSyncStep::SttTimeout => RuntimeApplyWarningCode::SttTimeoutSync,
            RuntimeSyncStep::LlmFormatting => RuntimeApplyWarningCode::LlmFormattingSync,
        }
    }

    /// What the message of a failure says before the error.
    pub open spec fn failure_lead(self) -> Seq<char> {
        match self {
            RuntimeSyncStep::FocusWatcher { .. } => "Failed to sync active app context watcher: "@,
            RuntimeSyncStep::PromptSections => "Failed to sync prompt sections to server: "@,
            RuntimeSyncStep::SttTimeout => "Failed to sync STT timeout to server: "@,
            RuntimeSyncStep::LlmFormatting => "Failed to sync LLM formatting mode to server: "@,
        }
    }

    /// What the message of a failure says behind the error: how to try again.
    pub open spec fn failure_advice(self) -> Seq<char> {
        match self {
            RuntimeSyncStep::FocusWatcher { .. } => {
                ". Toggle 'Send active app context' to retry sync."@
            },
            RuntimeSyncStep::PromptSections => ". Toggle a prompt section to retry sync."@,
            RuntimeSyncStep::SttTimeout => ". Change 'STT timeout' to retry sync."@,
            RuntimeSyncStep::LlmFormatting => ". Toggle 'LLM formatting' to retry sync."@,
        }
    }

    /// The message of a failure of the step.
    pub open spec fn failure_message(self, error: Seq<char>) -> Seq<char> {
        self.failure_lead() + error + self.failure_advice()
    }

    fn lead(self) -> (r: &'static str)
        ensures
            r@ == self.failure_lead(),
    {
        match self {
            RuntimeSyncStep::FocusWatcher { .. } => "Failed to sync active app context watcher: ",
            RuntimeSyncStep::PromptSections => "Failed to sync prompt sections to server: ",
            RuntimeSyncStep::SttTimeout => "Failed to sync STT timeout to server: ",
            RuntimeSyncStep::LlmFormatting => "Failed to sync LLM formatting mode to server: ",
        }
    }

    fn advice(self) -> (r: &'static str)
        ensures
            r@ == self.failure_advice(),
    {
        match self {
            RuntimeSyncStep::FocusWatcher { .. } => {
                ". Toggle 'Send active app context' to retry sync."
            },
            RuntimeSyncStep::PromptSections => ". Toggle a prompt section to retry sync.",
            RuntimeSyncStep::SttTimeout => ". Change 'STT timeout' to retry sync.",
            RuntimeSyncStep::LlmFormatting => ". Toggle 'LLM formatting' to retry sync.",
        }
    }
}

/// The steps that follow the focus watcher's, in their order. While no server
/// is connected there are none. Prompt sections and the timeout are sent
/// only where there are any to send; the formatting is sent in every case.
pub open spec fn server_sync_plan(
    is_connected: bool,
    has_prompt_sections: bool,
    has_stt_timeout: bool,
) -> Seq<RuntimeSyncStep> {
    if !is_connected {
        Seq::empty()
    } else {
        (if has_prompt_sections {
            seq![RuntimeSyncStep::PromptSections]
        } else {
            Seq::empty()
        }) + (if has_stt_timeout {
            seq![RuntimeSyncStep::SttTimeout]
        } else {
            Seq::empty()
        }) + seq![RuntimeSyncStep::LlmFormatting]
    }
}

/// Lists the steps that follow the focus watcher's, in their order.
pub fn server_sync_steps(is_connected: bool, has_prompt_sections: bool, has_stt_timeout: bool)
    -> (r: Vec<RuntimeSyncStep>)
    ensures
        r@ == server_sync_plan(is_connected, has_prompt_sections, has_stt_timeout),
{
    let mut steps: Vec<RuntimeSyncStep> = Vec::new();
    if is_connected {
        if has_prompt_sections {
            steps.push(RuntimeSyncStep::PromptSections);
        }
        if has_stt_timeout {
            steps.push(RuntimeSyncStep::SttTimeout);
        }
        steps.push(RuntimeSyncStep::LlmFormatting);
    }
    assert(steps@ =~= server_sync_plan(is_connected, has_prompt_sections, has_stt_timeout));
    steps
}

/// The outcome with one more step: among the actions where the step was
/// taken, and among the warnings, with the error in its message, where it
/// failed.
pub open spec fn recorded(
    outcome: RuntimeApplyOutcomeView,
    step: RuntimeSyncStep,
    error: Option<Seq<char>>,
) -> RuntimeApplyOutcomeView {
    match error {
        None => RuntimeApplyOutcomeView {
            runtime_actions_applied: outcome.runtime_actions_applied.push(
                RuntimeActionApplied { action: step.action(), setting_key: step.setting_key() },
            ),
            ..outcome
        },
        Some(error) => RuntimeApplyOutcomeView {
            warnings: outcome.warnings.push(
                RuntimeApplyWarningView {
                    code: step.warning_code(),
                    message: step.failure_message(error),
                    setting_key: step.setting_key(),
                },
            ),
            ..outcome
        },
    }
}

/// Records how a step went: `error` is what the step failed with, and absent
/// where it was taken.
pub fn record_runtime_step(
    outcome: &mut RuntimeApplyOutcome,
    step: RuntimeSyncStep,
    error: Option<&str>,
)
    ensures
        final(outcome)@ == recorded(old(outcome)@, step, crate::text::opt_str_text(error)),
{
    let setting_key = match step {
        RuntimeSyncStep::FocusWatcher { .. } => SettingClass::LocalOnly(
            LocalOnlySetting::SendActiveAppContextEnabled,
        ),
        RuntimeSyncStep::PromptSections => SettingClass::ServerSyncedHttp(
            HttpSyncedSetting::CleanupPromptSections,
        ),
        RuntimeSyncStep::SttTimeout => SettingClass::ServerSyncedHttp(
            HttpSyncedSetting::SttTimeoutSeconds,
        ),
        RuntimeSyncStep::LlmFormatting => SettingClass::ServerSyncedHttp(
            HttpSyncedSetting::LlmFormattingEnabled,
        ),
    };
    match error {
        None => {
            let action = match step {
                RuntimeSyncStep::FocusWatcher { enabled } => if enabled {
                    RuntimeApplyAction::FocusWatcherEnabled
                } else {
                    RuntimeApplyAction::FocusWatcherDisabled
                },
                RuntimeSyncStep::PromptSections => RuntimeApplyAction::PromptSectionsSynced,
                RuntimeSyncStep::SttTimeout => RuntimeApplyAction::SttTimeoutSynced,
                RuntimeSyncStep::LlmFormatting => RuntimeApplyAction::LlmFormattingSynced,
            };
            outcome.runtime_actions_applied.push(apply_runtime_action(action, setting_key));
        },
        Some(error) => {
            let code = match step {
                RuntimeSyncStep::FocusWatcher { .. } => {
                    RuntimeApplyWarningCode::FocusWatcherReconcile
                },
                RuntimeSyncStep::PromptSections => RuntimeApplyWarningCode::PromptSectionsSync,
                RuntimeSyncStep::SttTimeout => RuntimeApplyWarningCode::SttTimeoutSync,
                RuntimeSyncStep::LlmFormatting => RuntimeApplyWarningCode::LlmFormattingSync,
            };
            let message = String::from_str(step.lead()).concat(error).concat(step.advice());
            let ghost before = old(outcome)@.warnings;
            outcome.warnings.push(apply_runtime_warning(code, setting_key, message));
            assert(outcome@.warnings =~= before.push(
                RuntimeApplyWarningView {
                    code: step.warning_code(),
                    message: step.failure_message(error@),
                    setting_key: step.setting_key(),
                },
            ));
        },
    }
}

} // verus!
