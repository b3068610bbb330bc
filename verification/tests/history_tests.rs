use tambourine::active_app_context::ActiveAppContextSnapshot;
use tambourine::active_app_context::FocusConfidenceLevel;
use tambourine::active_app_context::FocusEventSource;
use tambourine::active_app_context::FocusedApplication;
use tambourine::active_app_context::FocusedBrowserTab;
use tambourine::active_app_context::FocusedWindow;
use tambourine::history::EntryTimestamp;
use tambourine::history::HistoryEntry;
use tambourine::history::HistoryImportResult;
use tambourine::history::HistoryImportStrategy;
use tambourine::history::HistoryStorage;
use tambourine::history::MAX_HISTORY_ENTRIES;

fn entry(id: &str, seconds: i64) -> HistoryEntry {
    HistoryEntry::new(
        id.to_string(),
        EntryTimestamp { seconds, nanoseconds: 0 },
        format!("text of {id}"),
        format!("raw text of {id}"),
        None,
    )
}

fn ids(entries: &[HistoryEntry]) -> Vec<String> {
    entries.iter().map(|entry| entry.id.clone()).collect()
}

fn stored_ids(storage: &HistoryStorage) -> Vec<String> {
    ids(&storage.get_all(None))
}

#[test]
fn add_entry_persists_active_app_context() {
    let active_app_context_snapshot = ActiveAppContextSnapshot {
        focused_application: Some(FocusedApplication {
            display_name: "Code".to_string(),
            bundle_id: Some("com.microsoft.VSCode".to_string()),
            process_path: None,
        }),
        focused_window: Some(FocusedWindow {
            title: "notes.md".to_string(),
        }),
        focused_browser_tab: Some(FocusedBrowserTab {
            title: Some("Issue tracker".to_string()),
            origin: Some("https://github.com".to_string()),
            browser: Some("Google Chrome".to_string()),
        }),
        event_source: FocusEventSource::Accessibility,
        confidence_level: FocusConfidenceLevel::High,
        captured_at: "2026-02-08T12:00:00Z".to_string(),
    };
    let mut history_storage = HistoryStorage::new(None);
    let new_history_entry = history_storage.add_entry(HistoryEntry::new(
        "an-id".to_string(),
        EntryTimestamp { seconds: 1_770_552_000, nanoseconds: 5 },
        "Formatted text".to_string(),
        "Raw text".to_string(),
        Some(active_app_context_snapshot.clone()),
    ));
    assert_eq!(
        new_history_entry.active_app_context,
        Some(active_app_context_snapshot.clone())
    );
    let persisted_entries = history_storage.get_all(Some(1));
    assert_eq!(persisted_entries.len(), 1);
    assert_eq!(persisted_entries[0].id, "an-id");
    assert_eq!(persisted_entries[0].text, "Formatted text");
    assert_eq!(persisted_entries[0].raw_text, "Raw text");
    assert_eq!(
        persisted_entries[0].timestamp,
        EntryTimestamp { seconds: 1_770_552_000, nanoseconds: 5 }
    );
    assert_eq!(
        persisted_entries[0].active_app_context,
        Some(active_app_context_snapshot)
    );
}

#[test]
fn new_entries_go_to_the_head() {
    let mut storage = HistoryStorage::new(None);
    assert!(storage.get_all(None).is_empty());
    storage.add_entry(entry("a", 1));
    storage.add_entry(entry("b", 0));
    storage.add_entry(entry("c", 5));
    assert_eq!(stored_ids(&storage), ["c", "b", "a"]);
    assert_eq!(ids(&storage.get_all(Some(2))), ["c", "b"]);
    assert_eq!(ids(&storage.get_all(Some(0))), Vec::<String>::new());
    assert_eq!(ids(&storage.get_all(Some(3))), ["c", "b", "a"]);
    assert_eq!(ids(&storage.get_all(Some(100))), ["c", "b", "a"]);
}

#[test]
fn history_keeps_the_newest_five_hundred() {
    let mut storage = HistoryStorage::new(None);
    for n in 0..(MAX_HISTORY_ENTRIES + 3) {
        storage.add_entry(entry(&n.to_string(), n as i64));
    }
    let entries = storage.get_all(None);
    assert_eq!(entries.len(), 500);
    assert_eq!(entries[0].id, "502");
    assert_eq!(entries[499].id, "3");
}

#[test]
fn loaded_entries_are_kept_as_they_are() {
    let loaded: Vec<HistoryEntry> = (0..600).map(|n| entry(&n.to_string(), n)).collect();
    let mut storage = HistoryStorage::new(Some(loaded));
    assert_eq!(storage.get_all(None).len(), 600);
    storage.add_entry(entry("new", 0));
    let entries = storage.get_all(None);
    assert_eq!(entries.len(), 500);
    assert_eq!(entries[0].id, "new");
    assert_eq!(entries[1].id, "0");
}

#[test]
fn delete_takes_out_every_entry_with_the_id() {
    let mut storage =
        HistoryStorage::new(Some(vec![entry("a", 3), entry("b", 2), entry("a", 1), entry("c", 0)]));
    assert!(!storage.delete("x"));
    assert_eq!(stored_ids(&storage), ["a", "b", "a", "c"]);
    assert!(storage.delete("a"));
    assert_eq!(stored_ids(&storage), ["b", "c"]);
    assert!(!storage.delete("a"));
    assert!(storage.delete("c"));
    assert!(storage.delete("b"));
    assert!(stored_ids(&storage).is_empty());
    assert!(!storage.delete("b"));
}

#[test]
fn clear_empties_the_history() {
    let mut storage = HistoryStorage::new(Some(vec![entry("a", 3), entry("b", 2)]));
    storage.clear();
    assert!(storage.get_all(None).is_empty());
    storage.clear();
    assert!(storage.get_all(None).is_empty());
}

fn imported(count: usize) -> HistoryImportResult {
    HistoryImportResult {
        success: true,
        entries_imported: Some(count),
        entries_skipped: Some(0),
    }
}

#[test]
fn import_replace_sorts_the_file_and_drops_the_history() {
    let mut storage = HistoryStorage::new(Some(vec![entry("old", 100)]));
    let result = storage.import_entries(
        vec![entry("a", 1), entry("b", 3), entry("c", 2), entry("d", 3)],
        HistoryImportStrategy::Replace,
    );
    assert_eq!(result, imported(4));
    assert_eq!(stored_ids(&storage), ["b", "d", "c", "a"]);
    let result = storage.import_entries(Vec::new(), HistoryImportStrategy::Replace);
    assert_eq!(result, imported(0));
    assert!(stored_ids(&storage).is_empty());
}

#[test]
fn import_merge_append_puts_the_sorted_file_before_the_history() {
    let mut storage = HistoryStorage::new(Some(vec![entry("x", 50), entry("y", 40)]));
    let result = storage.import_entries(
        vec![entry("a", 1), entry("x", 60), entry("b", 45)],
        HistoryImportStrategy::MergeAppend,
    );
    assert_eq!(result, imported(3));
    assert_eq!(stored_ids(&storage), ["x", "b", "a", "x", "y"]);
}

#[test]
fn import_merge_deduplicate_skips_known_ids_and_sorts_everything() {
    let mut storage = HistoryStorage::new(Some(vec![entry("x", 50), entry("y", 40)]));
    let result = storage.import_entries(
        vec![entry("a", 45), entry("x", 60), entry("b", 55), entry("a", 10), entry("y", 1)],
        HistoryImportStrategy::MergeDeduplicate,
    );
    assert_eq!(result, imported(3));
    assert_eq!(stored_ids(&storage), ["b", "x", "a", "y", "a"]);
}

#[test]
fn import_sorts_by_seconds_then_by_nanoseconds_and_keeps_ties_in_order() {
    let at = |id: &str, seconds: i64, nanoseconds: u32| {
        HistoryEntry::new(
            id.to_string(),
            EntryTimestamp { seconds, nanoseconds },
            String::new(),
            String::new(),
            None,
        )
    };
    let file = vec![
        at("a", 5, 10),
        at("b", 5, 20),
        at("c", -1, 999_999_999),
        at("d", 5, 10),
        at("e", 6, 0),
        at("f", 5, 1_500_000_000),
        at("g", 5, 10),
    ];
    let mut expected = file.clone();
    expected.sort_by(|left, right| {
        (right.timestamp.seconds, right.timestamp.nanoseconds)
            .cmp(&(left.timestamp.seconds, left.timestamp.nanoseconds))
    });
    let mut storage = HistoryStorage::new(None);
    storage.import_entries(file, HistoryImportStrategy::Replace);
    assert_eq!(stored_ids(&storage), ids(&expected));
    assert_eq!(stored_ids(&storage), ["e", "f", "b", "a", "d", "g", "c"]);
    assert!(EntryTimestamp { seconds: 5, nanoseconds: 10 }
        .before(EntryTimestamp { seconds: 5, nanoseconds: 11 }));
    assert!(!EntryTimestamp { seconds: 5, nanoseconds: 10 }
        .before(EntryTimestamp { seconds: 5, nanoseconds: 10 }));
    assert!(EntryTimestamp { seconds: 4, nanoseconds: 999 }
        .before(EntryTimestamp { seconds: 5, nanoseconds: 0 }));
    assert!(!EntryTimestamp { seconds: 5, nanoseconds: 0 }
        .before(EntryTimestamp { seconds: 4, nanoseconds: 999 }));
}

#[test]
fn import_cuts_the_history_down_to_five_hundred() {
    let file: Vec<HistoryEntry> = (0..700).map(|n| entry(&n.to_string(), n)).collect();
    let mut storage = HistoryStorage::new(Some(vec![entry("old", 1000)]));
    let result = storage.import_entries(file, HistoryImportStrategy::MergeDeduplicate);
    assert_eq!(result, imported(700));
    let entries = storage.get_all(None);
    assert_eq!(entries.len(), 500);
    assert_eq!(entries[0].id, "old");
    assert_eq!(entries[1].id, "699");
    assert_eq!(entries[499].id, "201");
}

fn timestamp_of(time: chrono::DateTime<chrono::Utc>) -> EntryTimestamp {
    EntryTimestamp {
        seconds: time.timestamp(),
        nanoseconds: time.timestamp_subsec_nanos(),
    }
}

#[test]
fn entry_timestamps_are_ordered_as_the_times_of_the_calendar() {
    let day = chrono::NaiveDate::from_ymd_opt(2026, 2, 8).expect("a day of the calendar");
    let next_day = chrono::NaiveDate::from_ymd_opt(2026, 2, 9).expect("a day of the calendar");
    let old_day = chrono::NaiveDate::from_ymd_opt(1969, 12, 31).expect("a day of the calendar");
    let times: Vec<chrono::DateTime<chrono::Utc>> = [
        day.and_hms_nano_opt(12, 0, 0, 0),
        day.and_hms_nano_opt(12, 0, 0, 1),
        day.and_hms_nano_opt(12, 0, 1, 0),
        day.and_hms_nano_opt(23, 59, 59, 999_999_999),
        day.and_hms_nano_opt(23, 59, 59, 1_500_000_000),
        next_day.and_hms_nano_opt(0, 0, 0, 0),
        next_day.and_hms_nano_opt(0, 0, 0, 200_000_000),
        old_day.and_hms_nano_opt(23, 59, 59, 999_999_999),
        old_day.and_hms_nano_opt(0, 0, 0, 5),
    ]
    .into_iter()
    .map(|time| time.expect("a time of the day").and_utc())
    .collect();
    for left in &times {
        for right in &times {
            assert_eq!(
                timestamp_of(*left).before(timestamp_of(*right)),
                left < right,
                "{left} and {right}"
            );
            let back = chrono::DateTime::from_timestamp(
                timestamp_of(*left).seconds,
                timestamp_of(*left).nanoseconds,
            );
            assert_eq!(back, Some(*left));
        }
    }
}
