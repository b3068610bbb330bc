use std::time::Duration;
use tambourine::active_app_context::watcher::decide_focus_watcher_sync;
use tambourine::active_app_context::watcher::process_focus_snapshot_poll;
use tambourine::active_app_context::watcher::settle_after_delivery;
use tambourine::active_app_context::watcher::ComparableActiveAppContext;
use tambourine::active_app_context::watcher::FocusWatcherHandle;
use tambourine::active_app_context::watcher::FocusWatcherState;
use tambourine::active_app_context::watcher::WatcherSyncAction;
use tambourine::active_app_context::watcher::CAPTURE_TIMEOUT_MILLIS;
use tambourine::active_app_context::watcher::DEBOUNCE_WINDOW_MILLIS;
use tambourine::active_app_context::watcher::POLL_INTERVAL_MILLIS;
use tambourine::active_app_context::ActiveAppContextSnapshot;
use tambourine::active_app_context::FocusConfidenceLevel;
use tambourine::active_app_context::FocusEventSource;
use tambourine::active_app_context::FocusedApplication;
use tambourine::active_app_context::FocusedBrowserTab;
use tambourine::active_app_context::FocusedWindow;

fn build_active_app_context_snapshot_for_test(
    application_name: &str,
    window_title: &str,
    browser_tab_title: Option<&str>,
    browser_tab_origin: Option<&str>,
    confidence_level: FocusConfidenceLevel,
    captured_at: &str,
) -> ActiveAppContextSnapshot {
    ActiveAppContextSnapshot {
        focused_application: Some(FocusedApplication {
            display_name: application_name.to_string(),
            bundle_id: None,
            process_path: None,
        }),
        focused_window: Some(FocusedWindow {
            title: window_title.to_string(),
        }),
        focused_browser_tab: Some(FocusedBrowserTab {
            title: browser_tab_title.map(str::to_string),
            origin: browser_tab_origin.map(str::to_string),
            browser: None,
        }),
        event_source: FocusEventSource::Polling,
        confidence_level,
        captured_at: captured_at.to_string(),
    }
}

/// The time at which the tests start their clocks.
fn instant_now() -> Duration {
    Duration::from_secs(3)
}

#[test]
fn comparable_active_app_context_is_stable_for_identical_snapshots() {
    let identical_focus_snapshot = build_active_app_context_snapshot_for_test(
        "Code",
        "notes.md",
        Some("Pull Request"),
        Some("https://example.com"),
        FocusConfidenceLevel::High,
        "2026-01-01T00:00:00Z",
    );

    let comparable_context_first = ComparableActiveAppContext::from(&identical_focus_snapshot);
    let comparable_context_second = ComparableActiveAppContext::from(&identical_focus_snapshot);

    assert_eq!(comparable_context_first, comparable_context_second);
}

#[test]
fn comparable_active_app_context_ignores_captured_at_changes() {
    let earlier_snapshot = build_active_app_context_snapshot_for_test(
        "Code",
        "notes.md",
        Some("Pull Request"),
        Some("https://example.com"),
        FocusConfidenceLevel::High,
        "2026-01-01T00:00:00Z",
    );
    let later_snapshot = build_active_app_context_snapshot_for_test(
        "Code",
        "notes.md",
        Some("Pull Request"),
        Some("https://example.com"),
        FocusConfidenceLevel::High,
        "2026-01-01T00:01:00Z",
    );

    assert_eq!(
        ComparableActiveAppContext::from(&earlier_snapshot),
        ComparableActiveAppContext::from(&later_snapshot)
    );
}

#[test]
fn comparable_active_app_context_changes_when_semantic_fields_change() {
    let original_snapshot = build_active_app_context_snapshot_for_test(
        "Code",
        "notes.md",
        Some("Pull Request"),
        Some("https://example.com"),
        FocusConfidenceLevel::High,
        "2026-01-01T00:00:00Z",
    );
    let changed_semantic_snapshot = build_active_app_context_snapshot_for_test(
        "Code",
        "notes.md",
        Some("Issue"),
        Some("https://example.org"),
        FocusConfidenceLevel::High,
        "2026-01-01T00:00:00Z",
    );

    assert_ne!(
        ComparableActiveAppContext::from(&original_snapshot),
        ComparableActiveAppContext::from(&changed_semantic_snapshot),
    );
}

#[test]
fn initial_observed_focus_snapshot_emits_after_debounce_window() {
    let debounce_window = Duration::from_millis(75);
    let initial_instant = instant_now();
    let initial_state = FocusWatcherState::AwaitingInitialEmission;
    let focus_snapshot = build_active_app_context_snapshot_for_test(
        "Code",
        "notes.md",
        Some("Pull Request"),
        Some("https://example.com"),
        FocusConfidenceLevel::High,
        "2026-01-01T00:00:00Z",
    );

    let first_poll_result = process_focus_snapshot_poll(
        initial_state,
        focus_snapshot.clone(),
        initial_instant.as_nanos(),
        debounce_window.as_nanos(),
    );
    assert!(first_poll_result.emission_candidate.is_none());

    let second_poll_result = process_focus_snapshot_poll(
        first_poll_result.next_state,
        focus_snapshot,
        (initial_instant + Duration::from_millis(250)).as_nanos(),
        debounce_window.as_nanos(),
    );
    assert!(second_poll_result.emission_candidate.is_some());
}

#[test]
fn debounce_timer_resets_only_when_comparable_context_changes() {
    let debounce_window = Duration::from_millis(75);
    let initial_instant = instant_now();
    let initial_state = FocusWatcherState::AwaitingInitialEmission;
    let first_focus_snapshot = build_active_app_context_snapshot_for_test(
        "Code",
        "notes.md",
        Some("Pull Request"),
        Some("https://example.com"),
        FocusConfidenceLevel::High,
        "2026-01-01T00:00:00Z",
    );
    let second_focus_snapshot = build_active_app_context_snapshot_for_test(
        "Terminal",
        "shell",
        None,
        None,
        FocusConfidenceLevel::High,
        "2026-01-01T00:00:01Z",
    );

    let first_poll_result = process_focus_snapshot_poll(
        initial_state,
        first_focus_snapshot.clone(),
        initial_instant.as_nanos(),
        debounce_window.as_nanos(),
    );
    assert!(first_poll_result.emission_candidate.is_none());

    let second_poll_result = process_focus_snapshot_poll(
        first_poll_result.next_state,
        second_focus_snapshot.clone(),
        (initial_instant + Duration::from_millis(50)).as_nanos(),
        debounce_window.as_nanos(),
    );
    assert!(second_poll_result.emission_candidate.is_none());

    let third_poll_result = process_focus_snapshot_poll(
        second_poll_result.next_state,
        second_focus_snapshot.clone(),
        (initial_instant + Duration::from_millis(120)).as_nanos(),
        debounce_window.as_nanos(),
    );
    assert!(third_poll_result.emission_candidate.is_none());

    let fourth_poll_result = process_focus_snapshot_poll(
        third_poll_result.next_state,
        second_focus_snapshot,
        (initial_instant + Duration::from_millis(130)).as_nanos(),
        debounce_window.as_nanos(),
    );
    assert!(fourth_poll_result.emission_candidate.is_some());
}

#[test]
fn stable_emitted_state_does_not_reemit_identical_context() {
    let debounce_window = Duration::from_millis(75);
    let base_instant = instant_now();
    let stable_focus_snapshot = build_active_app_context_snapshot_for_test(
        "Code",
        "notes.md",
        Some("Pull Request"),
        Some("https://example.com"),
        FocusConfidenceLevel::High,
        "2026-01-01T00:00:00Z",
    );
    let stable_emitted_state = FocusWatcherState::StableEmitted {
        emitted_context: ComparableActiveAppContext::from(&stable_focus_snapshot),
    };
    let same_context_with_new_timestamp = build_active_app_context_snapshot_for_test(
        "Code",
        "notes.md",
        Some("Pull Request"),
        Some("https://example.com"),
        FocusConfidenceLevel::High,
        "2026-01-01T00:10:00Z",
    );

    let poll_result = process_focus_snapshot_poll(
        stable_emitted_state,
        same_context_with_new_timestamp,
        (base_instant + Duration::from_millis(500)).as_nanos(),
        debounce_window.as_nanos(),
    );

    assert!(poll_result.emission_candidate.is_none());
    assert!(matches!(
        poll_result.next_state,
        FocusWatcherState::StableEmitted { .. }
    ));
}

#[test]
fn debouncing_candidate_retries_after_emission_failure() {
    let debounce_window = Duration::from_millis(75);
    let base_instant = instant_now();
    let initial_state = FocusWatcherState::AwaitingInitialEmission;
    let focus_snapshot = build_active_app_context_snapshot_for_test(
        "Code",
        "notes.md",
        Some("Pull Request"),
        Some("https://example.com/pr/123"),
        FocusConfidenceLevel::High,
        "2026-01-01T00:00:00Z",
    );

    let first_poll_result = process_focus_snapshot_poll(
        initial_state,
        focus_snapshot.clone(),
        base_instant.as_nanos(),
        debounce_window.as_nanos(),
    );
    assert!(first_poll_result.emission_candidate.is_none());

    let second_poll_result = process_focus_snapshot_poll(
        first_poll_result.next_state,
        focus_snapshot.clone(),
        (base_instant + Duration::from_millis(100)).as_nanos(),
        debounce_window.as_nanos(),
    );
    assert!(second_poll_result.emission_candidate.is_some());

    let third_poll_result = process_focus_snapshot_poll(
        second_poll_result.next_state,
        focus_snapshot,
        (base_instant + Duration::from_millis(150)).as_nanos(),
        debounce_window.as_nanos(),
    );
    assert!(third_poll_result.emission_candidate.is_some());
}

fn snapshot_of(application_name: &str, captured_at: &str) -> ActiveAppContextSnapshot {
    build_active_app_context_snapshot_for_test(
        application_name,
        "window",
        None,
        None,
        FocusConfidenceLevel::Medium,
        captured_at,
    )
}

#[test]
fn comparable_active_app_context_keeps_the_compared_fields() {
    let snapshot = build_active_app_context_snapshot_for_test(
        "Code",
        "notes.md",
        Some("Pull Request"),
        Some("https://example.com"),
        FocusConfidenceLevel::High,
        "2026-01-01T00:00:00Z",
    );
    let context = ComparableActiveAppContext::from(&snapshot);
    assert_eq!(context.focused_application_display_name.as_deref(), Some("Code"));
    assert_eq!(context.focused_window_title.as_deref(), Some("notes.md"));
    assert_eq!(context.focused_browser_tab_title.as_deref(), Some("Pull Request"));
    assert_eq!(context.focused_browser_tab_origin.as_deref(), Some("https://example.com"));
    assert_eq!(context.confidence_level, FocusConfidenceLevel::High);

    let empty = ActiveAppContextSnapshot {
        focused_application: None,
        focused_window: None,
        focused_browser_tab: None,
        event_source: FocusEventSource::Unknown,
        confidence_level: FocusConfidenceLevel::Low,
        captured_at: "t".to_string(),
    };
    let context = ComparableActiveAppContext::from(&empty);
    assert_eq!(context.focused_application_display_name, None);
    assert_eq!(context.focused_window_title, None);
    assert_eq!(context.focused_browser_tab_title, None);
    assert_eq!(context.focused_browser_tab_origin, None);
    assert_eq!(context.confidence_level, FocusConfidenceLevel::Low);
}

#[test]
fn comparable_active_app_context_ignores_source_and_changes_with_confidence() {
    let polled = snapshot_of("Code", "t");
    let mut read = snapshot_of("Code", "t");
    read.event_source = FocusEventSource::Accessibility;
    assert_eq!(
        ComparableActiveAppContext::from(&polled),
        ComparableActiveAppContext::from(&read)
    );
    let mut surer = snapshot_of("Code", "t");
    surer.confidence_level = FocusConfidenceLevel::High;
    assert_ne!(
        ComparableActiveAppContext::from(&polled),
        ComparableActiveAppContext::from(&surer)
    );
}

#[test]
fn emission_hands_out_the_latest_snapshot_at_the_window_exactly() {
    let first = snapshot_of("Code", "first");
    let second = snapshot_of("Code", "second");
    let result = process_focus_snapshot_poll(
        FocusWatcherState::AwaitingInitialEmission,
        first,
        1_000,
        75,
    );
    assert!(result.emission_candidate.is_none());
    let early = process_focus_snapshot_poll(result.next_state, snapshot_of("Code", "early"), 1_074, 75);
    assert!(early.emission_candidate.is_none());
    let result = process_focus_snapshot_poll(early.next_state, second.clone(), 1_075, 75);
    let candidate = result.emission_candidate.expect("the window has passed");
    assert_eq!(candidate.candidate_snapshot, second);
    assert_eq!(candidate.candidate_context, ComparableActiveAppContext::from(&second));
    match result.next_state {
        FocusWatcherState::DebouncingCandidate(candidate) => {
            assert_eq!(candidate.first_seen_at, 1_000);
            assert_eq!(candidate.candidate_snapshot, second);
        }
        other => panic!("unexpected state {:?}", other),
    }
}

#[test]
fn a_clock_that_runs_backwards_counts_as_no_time_passed() {
    let result = process_focus_snapshot_poll(
        FocusWatcherState::AwaitingInitialEmission,
        snapshot_of("Code", "a"),
        1_000,
        75,
    );
    let result = process_focus_snapshot_poll(result.next_state, snapshot_of("Code", "b"), 10, 75);
    assert!(result.emission_candidate.is_none());
    let result = process_focus_snapshot_poll(result.next_state, snapshot_of("Code", "c"), 10, 0);
    assert!(result.emission_candidate.is_some());
}

#[test]
fn a_changed_focus_is_never_handed_out_at_once() {
    let result = process_focus_snapshot_poll(
        FocusWatcherState::AwaitingInitialEmission,
        snapshot_of("Code", "a"),
        0,
        0,
    );
    assert!(result.emission_candidate.is_none());
    let result = process_focus_snapshot_poll(result.next_state, snapshot_of("Terminal", "b"), 500, 0);
    assert!(result.emission_candidate.is_none());
    match result.next_state {
        FocusWatcherState::DebouncingCandidate(candidate) => {
            assert_eq!(candidate.first_seen_at, 500);
            assert_eq!(
                candidate.candidate_context.focused_application_display_name.as_deref(),
                Some("Terminal")
            );
        }
        other => panic!("unexpected state {:?}", other),
    }
}

#[test]
fn delivery_settles_the_state_and_failure_keeps_the_candidate() {
    let snapshot = snapshot_of("Code", "a");
    let context = ComparableActiveAppContext::from(&snapshot);
    let first = process_focus_snapshot_poll(
        FocusWatcherState::AwaitingInitialEmission,
        snapshot.clone(),
        0,
        75,
    );
    let waiting = settle_after_delivery(first, true);
    assert!(matches!(waiting, FocusWatcherState::DebouncingCandidate(_)));

    let second = process_focus_snapshot_poll(waiting, snapshot.clone(), 100, 75);
    assert!(second.emission_candidate.is_some());
    let failed = settle_after_delivery(second, false);
    assert!(matches!(failed, FocusWatcherState::DebouncingCandidate(_)));

    let third = process_focus_snapshot_poll(failed, snapshot.clone(), 350, 75);
    assert!(third.emission_candidate.is_some());
    let stable = settle_after_delivery(third, true);
    match &stable {
        FocusWatcherState::StableEmitted { emitted_context } => {
            assert_eq!(*emitted_context, context)
        }
        other => panic!("unexpected state {:?}", other),
    }

    let mut state = stable;
    for tick in 0..5u128 {
        let result = process_focus_snapshot_poll(state, snapshot_of("Code", "later"), 600 + tick * 250, 75);
        assert!(result.emission_candidate.is_none());
        state = settle_after_delivery(result, true);
        assert!(matches!(state, FocusWatcherState::StableEmitted { .. }));
    }

    let changed = process_focus_snapshot_poll(state, snapshot_of("Terminal", "x"), 5_000, 75);
    assert!(changed.emission_candidate.is_none());
    assert!(matches!(changed.next_state, FocusWatcherState::DebouncingCandidate(_)));
}

#[test]
fn a_changed_focus_is_the_only_one_handed_out() {
    let a = snapshot_of("Code", "a");
    let b = snapshot_of("Terminal", "b");
    let b_again = snapshot_of("Terminal", "b again");
    let mut handed_out = Vec::new();
    let mut state = FocusWatcherState::AwaitingInitialEmission;
    for (snapshot, at) in [(a, 0u128), (b, 50), (b_again.clone(), 125)] {
        let result = process_focus_snapshot_poll(state, snapshot, at, 75);
        if let Some(candidate) = &result.emission_candidate {
            handed_out.push(candidate.candidate_snapshot.clone());
        }
        state = settle_after_delivery(result, true);
    }
    assert_eq!(handed_out, vec![b_again]);
}

#[test]
fn watcher_sync_starts_and_stops_with_the_setting() {
    assert_eq!(decide_focus_watcher_sync(true, false), WatcherSyncAction::Start);
    assert_eq!(decide_focus_watcher_sync(true, true), WatcherSyncAction::Keep);
    assert_eq!(decide_focus_watcher_sync(false, true), WatcherSyncAction::Stop);
    assert_eq!(decide_focus_watcher_sync(false, false), WatcherSyncAction::Keep);
}

#[test]
fn watcher_handle_is_shared_by_its_clones() {
    let handle = FocusWatcherHandle::new();
    let seen_by_watcher = handle.clone();
    assert!(!seen_by_watcher.stop_requested());
    handle.stop();
    assert!(seen_by_watcher.stop_requested());
    assert!(handle.stop_requested());
}

#[test]
fn watcher_timings_are_the_designed_ones() {
    assert_eq!(POLL_INTERVAL_MILLIS, 250);
    assert_eq!(DEBOUNCE_WINDOW_MILLIS, 75);
    assert_eq!(CAPTURE_TIMEOUT_MILLIS, 150);
}
