//! The debounced watcher: it takes one snapshot per poll and hands a snapshot
//! out for delivery only once the focus has stayed the same for a while.

use crate::active_app_context::ActiveAppContextSnapshot;
use crate::active_app_context::ActiveAppContextSnapshotView;
use crate::active_app_context::FocusConfidenceLevel;
use crate::text::clone_opt_string;
use crate::text::opt_string_eq;
use crate::text::opt_text;
use std::sync::atomic::AtomicBool;
use std::sync::atomic::Ordering;
use std::sync::Arc;
use vstd::prelude::*;
use vstd::std_specs::cmp::PartialEqSpecImpl;
use vstd::std_specs::convert::FromSpecImpl;

verus! {

/// The time between two polls, in milliseconds.
pub const POLL_INTERVAL_MILLIS: u64 = 250;

/// The time for which a focus has to stay before it counts as settled, in
/// milliseconds.
pub const DEBOUNCE_WINDOW_MILLIS: u64 = 75;

/// The longest wait for a snapshot that another thread takes, in milliseconds.
pub const CAPTURE_TIMEOUT_MILLIS: u64 = 150;

/// The fields of a snapshot by which two snapshots count as the same focus.
#[derive(Debug)]
pub struct ComparableActiveAppContext {
    pub focused_application_display_name: Option<String>,
    pub focused_window_title: Option<String>,
    pub focused_browser_tab_title: Option<String>,
    pub focused_browser_tab_origin: Option<String>,
    pub confidence_level: FocusConfidenceLevel,
}

/// A `ComparableActiveAppContext` as plain text.
pub struct ComparableActiveAppContextView {
    pub focused_application_display_name: Option<Seq<char>>,
    pub focused_window_title: Option<Seq<char>>,
    pub focused_browser_tab_title: Option<Seq<char>>,
    pub focused_browser_tab_origin: Option<Seq<char>>,
    pub confidence_level: FocusConfidenceLevel,
}

impl View for ComparableActiveAppContext {
    type V = ComparableActiveAppContextView;

    open spec fn view(&self) -> ComparableActiveAppContextView {
        ComparableActiveAppContextView {
            focused_application_display_name: opt_text(self.focused_application_display_name),
            focused_window_title: opt_text(self.focused_window_title),
            focused_browser_tab_title: opt_text(self.focused_browser_tab_title),
            focused_browser_tab_origin: opt_text(self.focused_browser_tab_origin),
            confidence_level: self.confidence_level,
        }
    }
}

/// What of a snapshot takes part in the comparison: the name of the
/// application, the title of the window, title and origin of the tab, and the
/// confidence level. The time of the reading and its source do not.
pub open spec fn comparable_context(snapshot: ActiveAppContextSnapshotView)
    -> ComparableActiveAppContextView {
    ComparableActiveAppContextView {
        focused_application_display_name: match snapshot.focused_application {
            Some(application) => Some(application.display_name),
            None => None,
        },
        focused_window_title: match snapshot.focused_window {
            Some(window) => Some(window.title),
            None => None,
        },
        focused_browser_tab_title: match snapshot.focused_browser_tab {
            Some(tab) => tab.title,
            None => None,
        },
        focused_browser_tab_origin: match snapshot.focused_browser_tab {
            Some(tab) => tab.origin,
            None => None,
        },
        confidence_level: snapshot.confidence_level,
    }
}

impl Clone for ComparableActiveAppContext {
    fn clone(&self) -> (r: Self)
        ensures
            r == *self,
    {
        ComparableActiveAppContext {
            focused_application_display_name: clone_opt_string(
                &self.focused_application_display_name,
            ),
            focused_window_title: clone_opt_string(&self.focused_window_title),
            focused_browser_tab_title: clone_opt_string(&self.focused_browser_tab_title),
            focused_browser_tab_origin: clone_opt_string(&self.focused_browser_tab_origin),
            confidence_level: self.confidence_level,
        }
    }
}

impl PartialEq for ComparableActiveAppContext {
    fn eq(&self, other: &Self) -> (r: bool) {
        opt_string_eq(
            &self.focused_application_display_name,
            &other.focused_application_display_name,
        ) && opt_string_eq(&self.focused_window_title, &other.focused_window_title)
            && opt_string_eq(&self.focused_browser_tab_title, &other.focused_browser_tab_title)
            && opt_string_eq(&self.focused_browser_tab_origin, &other.focused_browser_tab_origin)
            && self.confidence_level == other.confidence_level
    }
}

impl PartialEqSpecImpl for ComparableActiveAppContext {
    open spec fn obeys_eq_spec() -> bool {
        true
    }

    open spec fn eq_spec(&self, other: &Self) -> bool {
        self@ == other@
    }
}

impl Eq for ComparableActiveAppContext {

}

impl<'a> From<&'a ActiveAppContextSnapshot> for ComparableActiveAppContext {
    fn from(snapshot: &'a ActiveAppContextSnapshot) -> (r: Self)
        ensures
            r@ == comparable_context(snapshot@),
    {
        ComparableActiveAppContext {
            focused_application_display_name: match &snapshot.focused_application {
                Some(application) => Some(application.display_name.clone()),
                None => None,
            },
            focused_window_title: match &snapshot.focused_window {
                Some(window) => Some(window.title.clone()),
                None => None,
            },
            focused_browser_tab_title: match &snapshot.focused_browser_tab {
                Some(tab) => clone_opt_string(&tab.title),
                None => None,
            },
            focused_browser_tab_origin: match &snapshot.focused_browser_tab {
                Some(tab) => clone_opt_string(&tab.origin),
                None => None,
            },
            confidence_level: snapshot.confidence_level,
        }
    }
}

impl<'a> FromSpecImpl<&'a ActiveAppContextSnapshot> for ComparableActiveAppContext {
    open spec fn obeys_from_spec() -> bool {
        true
    }

    open spec fn from_spec(snapshot: &'a ActiveAppContextSnapshot) -> Self {
        ComparableActiveAppContext {
            focused_application_display_name: match snapshot.focused_application {
                Some(application) => Some(application.display_name),
                None => None,
            },
            focused_window_title: match snapshot.focused_window {
                Some(window) => Some(window.title),
                None => None,
            },
            focused_browser_tab_title: match snapshot.focused_browser_tab {
                Some(tab) => tab.title,
                None => None,
            },
            focused_browser_tab_origin: match snapshot.focused_browser_tab {
                Some(tab) => tab.origin,
                None => None,
            },
            confidence_level: snapshot.confidence_level,
        }
    }
}

/// A focus that has been seen and has not yet stayed long enough.
#[derive(Debug)]
pub struct DebouncingCandidateState {
    pub candidate_context: ComparableActiveAppContext,
    pub candidate_snapshot: ActiveAppContextSnapshot,
    /// When the candidate's focus was first seen, in nanoseconds on a clock
    /// that never runs backwards.
    pub first_seen_at: u128,
}

/// A snapshot that the watcher hands out for delivery.
#[derive(Debug)]
pub struct EmissionCandidate {
    pub candidate_context: ComparableActiveAppContext,
    pub candidate_snapshot: ActiveAppContextSnapshot,
}

/// An `EmissionCandidate` as plain text.
pub struct EmissionCandidateView {
    pub candidate_context: ComparableActiveAppContextView,
    pub candidate_snapshot: ActiveAppContextSnapshotView,
}

impl View for EmissionCandidate {
    type V = EmissionCandidateView;

    open spec fn view(&self) -> EmissionCandidateView {
        EmissionCandidateView {
            candidate_context: self.candidate_context@,
            candidate_snapshot: self.candidate_snapshot@,
        }
    }
}

/// The state of the watcher between two polls.
#[derive(Debug)]
pub enum FocusWatcherState {
    /// No focus has been seen yet.
    AwaitingInitialEmission,
    /// The focus that was delivered last; a poll that shows it again is
    /// passed over.
    StableEmitted { emitted_context: ComparableActiveAppContext },
    /// A focus is being watched until it has stayed long enough.
    DebouncingCandidate(Box<DebouncingCandidateState>),
}

/// A `FocusWatcherState` as plain values.
pub enum FocusWatcherStateView {
    AwaitingInitialEmission,
    StableEmitted { emitted_context: ComparableActiveAppContextView },
    DebouncingCandidate {
        candidate_context: ComparableActiveAppContextView,
        candidate_snapshot: ActiveAppContextSnapshotView,
        first_seen_at: nat,
    },
}

impl View for FocusWatcherState {
    type V = FocusWatcherStateView;

    open spec fn view(&self) -> FocusWatcherStateView {
        match self {
            FocusWatcherState::AwaitingInitialEmission => {
                FocusWatcherStateView::AwaitingInitialEmission
            },
            FocusWatcherState::StableEmitted { emitted_context } => {
                FocusWatcherStateView::StableEmitted { emitted_context: emitted_context@ }
            },
            FocusWatcherState::DebouncingCandidate(candidate) => {
                FocusWatcherStateView::DebouncingCandidate {
                    candidate_context: candidate.candidate_context@,
                    candidate_snapshot: candidate.candidate_snapshot@,
                    first_seen_at: candidate.first_seen_at as nat,
                }
            },
        }
    }
}

/// What one poll gives: the state to go on with, and a snapshot to deliver
/// where the focus has settled.
#[derive(Debug)]
pub struct WatcherPollResult {
    pub next_state: FocusWatcherState,
    pub emission_candidate: Option<EmissionCandidate>,
}

/// A `WatcherPollResult` as plain values.
pub struct WatcherPollResultView {
    pub next_state: FocusWatcherStateView,
    pub emission_candidate: Option<EmissionCandidateView>,
}

impl View for WatcherPollResult {
    type V = WatcherPollResultView;

    open spec fn view(&self) -> WatcherPollResultView {
        WatcherPollResultView {
            next_state: self.next_state@,
            emission_candidate: match self.emission_candidate {
                Some(candidate) => Some(candidate@),
                None => None,
            },
        }
    }
}

/// The time from `first_seen_at` to `now`; none where the clock shows an
/// earlier time.
pub open spec fn elapsed_since(first_seen_at: nat, now: nat) -> nat {
    if now >= first_seen_at {
        (now - first_seen_at) as nat
    } else {
        0
    }
}

/// The state in which a focus that was seen at `now` for the first time is
/// watched.
pub open spec fn debouncing_afresh(snapshot: ActiveAppContextSnapshotView, now: nat)
    -> FocusWatcherStateView {
    FocusWatcherStateView::DebouncingCandidate {
        candidate_context: comparable_context(snapshot),
        candidate_snapshot: snapshot,
        first_seen_at: now,
    }
}

/// The transition that one poll makes.
///
/// A focus that is new to the watcher, or differs from the one held, is
/// watched from `now` on, and nothing is handed out. A focus that equals the
/// one delivered last changes nothing. A focus that equals the candidate keeps
/// the time at which the candidate was first seen and replaces its snapshot;
/// once `debounce_window` has passed since that time, the snapshot is handed
/// out, and the state stays as it is until the delivery is known.
pub open spec fn poll(
    state: FocusWatcherStateView,
    snapshot: ActiveAppContextSnapshotView,
    now: nat,
    debounce_window: nat,
) -> WatcherPollResultView {
    let context = comparable_context(snapshot);
    match state {
        FocusWatcherStateView::AwaitingInitialEmission => WatcherPollResultView {
            next_state: debouncing_afresh(snapshot, now),
            emission_candidate: None,
        },
        FocusWatcherStateView::StableEmitted { emitted_context } => WatcherPollResultView {
            next_state: if emitted_context == context {
                state
            } else {
                debouncing_afresh(snapshot, now)
            },
            emission_candidate: None,
        },
        FocusWatcherStateView::DebouncingCandidate {
            candidate_context,
            candidate_snapshot,
            first_seen_at,
        } => if candidate_context == context {
            WatcherPollResultView {
                next_state: FocusWatcherStateView::DebouncingCandidate {
                    candidate_context,
                    candidate_snapshot: snapshot,
                    first_seen_at,
                },
                emission_candidate: if elapsed_since(first_seen_at, now) >= debounce_window {
                    Some(EmissionCandidateView { candidate_context, candidate_snapshot: snapshot })
                } else {
                    None
                },
            }
        } else {
            WatcherPollResultView {
                next_state: debouncing_afresh(snapshot, now),
                emission_candidate: None,
            }
        },
    }
}

/// The state after the delivery of what a poll handed out: the delivered
/// focus is held as the stable one; where nothing was handed out, or the
/// delivery failed, the state is the one that the poll gave, so that the next
/// poll tries again.
pub open spec fn after_delivery(result: WatcherPollResultView, delivered: bool)
    -> FocusWatcherStateView {
    match result.emission_candidate {
        Some(candidate) => if delivered {
            FocusWatcherStateView::StableEmitted { emitted_context: candidate.candidate_context }
        } else {
            result.next_state
        },
        None => result.next_state,
    }
}

fn debounce_afresh(
    polled_context: ComparableActiveAppContext,
    polled_snapshot: ActiveAppContextSnapshot,
    observed_at: u128,
) -> (r: WatcherPollResult)
    requires
        polled_context@ == comparable_context(polled_snapshot@),
    ensures
        r@ == (WatcherPollResultView {
            next_state: debouncing_afresh(polled_snapshot@, observed_at as nat),
            emission_candidate: None,
        }),
{
    WatcherPollResult {
        next_state: FocusWatcherState::DebouncingCandidate(
            Box::new(
                DebouncingCandidateState {
                    candidate_context: polled_context,
                    candidate_snapshot: polled_snapshot,
                    first_seen_at: observed_at,
                },
            ),
        ),
        emission_candidate: None,
    }
}

/// Takes one polled snapshot into the state of the watcher. Times are in
/// nanoseconds on a clock that never runs backwards.
pub fn process_focus_snapshot_poll(
    current_state: FocusWatcherState,
    polled_snapshot: ActiveAppContextSnapshot,
    observed_at: u128,
    debounce_window: u128,
) -> (r: WatcherPollResult)
    ensures
        r@ == poll(current_state@, polled_snapshot@, observed_at as nat, debounce_window as nat),
{
    let polled_context = ComparableActiveAppContext::from(&polled_snapshot);
    match current_state {
        FocusWatcherState::AwaitingInitialEmission => {
            debounce_afresh(polled_context, polled_snapshot, observed_at)
        },
        FocusWatcherState::StableEmitted { emitted_context } => {
            if emitted_context == polled_context {
                WatcherPollResult {
                    next_state: FocusWatcherState::StableEmitted { emitted_context },
                    emission_candidate: None,
                }
            } else {
                debounce_afresh(polled_context, polled_snapshot, observed_at)
            }
        },
        FocusWatcherState::DebouncingCandidate(candidate) => {
            let DebouncingCandidateState { candidate_context, candidate_snapshot: _, first_seen_at } =
                *candidate;
            if candidate_context == polled_context {
                let elapsed_since_first_seen: u128 = if observed_at >= first_seen_at {
                    observed_at - first_seen_at
                } else {
                    0
                };
                let emission_candidate = if elapsed_since_first_seen >= debounce_window {
                    Some(
                        EmissionCandidate {
                            candidate_context: candidate_context.clone(),
                            candidate_snapshot: polled_snapshot.clone(),
                        },
                    )
                } else {
                    None
                };
                WatcherPollResult {
                    next_state: FocusWatcherState::DebouncingCandidate(
                        Box::new(
                            DebouncingCandidateState {
                                candidate_context,
                                candidate_snapshot: polled_snapshot,
                                first_seen_at,
                            },
                        ),
                    ),
                    emission_candidate,
                }
            } else {
                debounce_afresh(polled_context, polled_snapshot, observed_at)
            }
        },
    }
}

/// The state with which the watcher goes on once it knows whether what a poll
/// handed out was delivered.
pub fn settle_after_delivery(poll_result: WatcherPollResult, delivered: bool) -> (r:
    FocusWatcherState)
    ensures
        r@ == after_delivery(poll_result@, delivered),
{
    match poll_result.emission_candidate {
        Some(candidate) => if delivered {
            FocusWatcherState::StableEmitted { emitted_context: candidate.candidate_context }
        } else {
            poll_result.next_state
        },
        None => poll_result.next_state,
    }
}

/// A poll hands out nothing but its own snapshot, and only for a focus that
/// the watcher has held as its candidate for the debounce window at least.
pub proof fn lemma_emission_means_settled(
    state: FocusWatcherStateView,
    snapshot: ActiveAppContextSnapshotView,
    now: nat,
    debounce_window: nat,
)
    ensures
        poll(state, snapshot, now, debounce_window).emission_candidate matches Some(candidate) ==> {
            &&& candidate == (EmissionCandidateView {
                candidate_context: comparable_context(snapshot),
                candidate_snapshot: snapshot,
            })
            &&& state matches FocusWatcherStateView::DebouncingCandidate {
                candidate_context,
                first_seen_at,
                ..
            }
            &&& candidate_context == comparable_context(snapshot)
            &&& elapsed_since(first_seen_at, now) >= debounce_window
        },
{
}

/// One poll as the watcher's loop sees it: the snapshot, the time at which
/// it was taken in, and whether what the poll handed out was delivered.
pub struct PollInput {
    pub snapshot: ActiveAppContextSnapshotView,
    pub observed_at: nat,
    pub delivered: bool,
}

/// The state after one poll and the delivery of what it handed out.
pub open spec fn step(state: FocusWatcherStateView, input: PollInput, debounce_window: nat)
    -> FocusWatcherStateView {
    after_delivery(poll(state, input.snapshot, input.observed_at, debounce_window), input.delivered)
}

/// The state after a run of polls.
pub open spec fn run(state: FocusWatcherStateView, inputs: Seq<PollInput>, debounce_window: nat)
    -> FocusWatcherStateView
    decreases inputs.len(),
{
    if inputs.len() == 0 {
        state
    } else {
        run(step(state, inputs.first(), debounce_window), inputs.drop_first(), debounce_window)
    }
}

/// What a run of polls hands out for delivery, in order.
pub open spec fn emissions(
    state: FocusWatcherStateView,
    inputs: Seq<PollInput>,
    debounce_window: nat,
) -> Seq<EmissionCandidateView>
    decreases inputs.len(),
{
    if inputs.len() == 0 {
        Seq::empty()
    } else {
        let first = inputs.first();
        let handed_out = match poll(
            state,
            first.snapshot,
            first.observed_at,
            debounce_window,
        ).emission_candidate {
            Some(candidate) => seq![candidate],
            None => Seq::empty(),
        };
        handed_out + emissions(
            step(state, first, debounce_window),
            inputs.drop_first(),
            debounce_window,
        )
    }
}

/// Once a focus has been delivered, polls that show the same focus hand
/// nothing out, however many they are, and leave the state as it is.
pub proof fn lemma_stable_state_absorbs_duplicates(
    emitted_context: ComparableActiveAppContextView,
    inputs: Seq<PollInput>,
    debounce_window: nat,
)
    requires
        forall|i: int|
            0 <= i < inputs.len() ==> comparable_context(#[trigger] inputs[i].snapshot)
                == emitted_context,
    ensures
        emissions(
            FocusWatcherStateView::StableEmitted { emitted_context },
            inputs,
            debounce_window,
        ) == Seq::<EmissionCandidateView>::empty(),
        run(FocusWatcherStateView::StableEmitted { emitted_context }, inputs, debounce_window)
            == (FocusWatcherStateView::StableEmitted { emitted_context }),
    decreases inputs.len(),
{
    if inputs.len() > 0 {
        let rest = inputs.drop_first();
        assert(comparable_context(inputs[0].snapshot) == emitted_context);
        assert forall|i: int| 0 <= i < rest.len() implies comparable_context(
            #[trigger] rest[i].snapshot,
        ) == emitted_context by {
            assert(rest[i] == inputs[i + 1]);
        }
        lemma_stable_state_absorbs_duplicates(emitted_context, rest, debounce_window);
    }
}

/// A watcher that has seen nothing yet and is shown the same focus twice, the
/// second time when the debounce window has passed since the first, hands out
/// exactly one snapshot: that of the second poll.
pub proof fn lemma_settled_focus_is_emitted_once(
    first: PollInput,
    second: PollInput,
    debounce_window: nat,
)
    requires
        comparable_context(first.snapshot) == comparable_context(second.snapshot),
        second.observed_at >= first.observed_at + debounce_window,
    ensures
        poll(
            FocusWatcherStateView::AwaitingInitialEmission,
            first.snapshot,
            first.observed_at,
            debounce_window,
        ).emission_candidate is None,
        emissions(
            FocusWatcherStateView::AwaitingInitialEmission,
            seq![first, second],
            debounce_window,
        ) == seq![
            EmissionCandidateView {
                candidate_context: comparable_context(second.snapshot),
                candidate_snapshot: second.snapshot,
            },
        ],
{
    let inputs = seq![first, second];
    let rest = inputs.drop_first();
    assert(rest =~= seq![second]);
    assert(rest.drop_first() =~= Seq::<PollInput>::empty());
    reveal_with_fuel(emissions, 3);
    let start = FocusWatcherStateView::AwaitingInitialEmission;
    let middle = step(start, first, debounce_window);
    assert(emissions(start, inputs, debounce_window) =~= emissions(
        middle,
        rest,
        debounce_window,
    ));
}

/// A change of focus starts the debounce window anew. A watcher that has seen
/// nothing yet and is shown one focus, then another, then that other again
/// when the debounce window has passed since its first showing, hands out
/// exactly one snapshot: that of the third poll. The first focus is never
/// handed out.
pub proof fn lemma_focus_change_restarts_debounce(
    first: PollInput,
    second: PollInput,
    third: PollInput,
    debounce_window: nat,
)
    requires
        comparable_context(first.snapshot) != comparable_context(second.snapshot),
        comparable_context(second.snapshot) == comparable_context(third.snapshot),
        third.observed_at >= second.observed_at + debounce_window,
    ensures
        emissions(
            FocusWatcherStateView::AwaitingInitialEmission,
            seq![first, second, third],
            debounce_window,
        ) == seq![
            EmissionCandidateView {
                candidate_context: comparable_context(third.snapshot),
                candidate_snapshot: third.snapshot,
            },
        ],
{
    let inputs = seq![first, second, third];
    let rest = inputs.drop_first();
    assert(rest =~= seq![second, third]);
    let last = rest.drop_first();
    assert(last =~= seq![third]);
    assert(last.drop_first() =~= Seq::<PollInput>::empty());
    reveal_with_fuel(emissions, 4);
    let start = FocusWatcherStateView::AwaitingInitialEmission;
    let after_first = step(start, first, debounce_window);
    let after_second = step(after_first, second, debounce_window);
    assert(emissions(after_second, last, debounce_window) =~= seq![
        EmissionCandidateView {
            candidate_context: comparable_context(third.snapshot),
            candidate_snapshot: third.snapshot,
        },
    ]);
    assert(emissions(after_first, rest, debounce_window) =~= emissions(
        after_second,
        last,
        debounce_window,
    ));
    assert(emissions(start, inputs, debounce_window) =~= emissions(
        after_first,
        rest,
        debounce_window,
    ));
}

/// What is to be done with the watcher when the setting that switches it on
/// or off is read.
#[derive(Debug, Clone, Copy, PartialEq, Eq, Structural)]
pub enum WatcherSyncAction {
    /// Start a watcher: the setting is on and none runs.
    Start,
    /// Stop the watcher that runs: the setting is off.
    Stop,
    /// Leave things as they are.
    Keep,
}

/// Decides what the setting asks of the watcher.
pub fn decide_focus_watcher_sync(send_active_app_context_enabled: bool, watcher_is_running: bool)
    -> (r: WatcherSyncAction)
    ensures
        r == if send_active_app_context_enabled && !watcher_is_running {
            WatcherSyncAction::Start
        } else if !send_active_app_context_enabled && watcher_is_running {
            WatcherSyncAction::Stop
        } else {
            WatcherSyncAction::Keep
        },
{
    if send_active_app_context_enabled {
        if watcher_is_running {
            WatcherSyncAction::Keep
        } else {
            WatcherSyncAction::Start
        }
    } else if watcher_is_running {
        WatcherSyncAction::Stop
    } else {
        WatcherSyncAction::Keep
    }
}

/// The switch by which a running watcher is told to stop. The watcher reads
/// it once per poll.
#[derive(Debug)]
pub struct FocusWatcherHandle {
    should_stop: Arc<AtomicBool>,
}

impl Clone for FocusWatcherHandle {
    /// Another handle on the same switch.
    fn clone(&self) -> Self {
        FocusWatcherHandle { should_stop: self.should_stop.clone() }
    }
}

impl FocusWatcherHandle {
    /// A switch that has not been thrown.
    pub fn new() -> Self {
        FocusWatcherHandle { should_stop: Arc::new(AtomicBool::new(false)) }
    }

    /// Tells the watcher to stop.
    pub fn stop(&self) {
        self.should_stop.store(true, Ordering::SeqCst);
    }

    /// Whether the watcher has been told to stop.
    pub fn stop_requested(&self) -> bool {
        self.should_stop.load(Ordering::SeqCst)
    }
}

} // verus!
