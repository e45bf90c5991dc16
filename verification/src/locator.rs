//! Discovery of the client's login field.
//!
//! The field shows up at an unpredictable time, so it is polled for. Each
//! tick looks at the element that holds the keyboard focus, which is cheap;
//! at most once per [`SLOW_INTERVAL_MS`] a tick also searches the client's
//! windows, which is not. The locator neither sleeps nor touches the UI
//! tree: it is a state machine. The caller performs the [`LocatorAction`]
//! it is handed and reports what came of it as the next [`LocatorEvent`],
//! together with a reading of a monotonic clock in milliseconds.

use crate::text::{contains, has_substring, same_text};
use vstd::prelude::*;

verus! {

/// Pause between two ticks.
pub const FAST_TICK_MS: u64 = 50;

/// Time that must have passed since the last search of the windows before
/// the next one is made.
pub const SLOW_INTERVAL_MS: u64 = 1000;

/// Time that one search for the login field may take in all.
pub const SEARCH_BUDGET_MS: u64 = 60000;

/// Time that the search inside one window may take.
pub const WINDOW_SEARCH_TIMEOUT_MS: u64 = 50;

/// Width below which a window of the client is taken for a popup and is not
/// searched.
pub const MIN_WINDOW_WIDTH: i64 = 200;

/// Number of ancestors of the focused element, nearest first, that are
/// looked at.
pub const MAX_ANCESTOR_DEPTH: usize = 6;

/// Automation identifier of the login field.
pub const LOGIN_FIELD_AUTOMATION_ID: &'static str = "username";

/// Accessible name of the login field.
pub const LOGIN_FIELD_NAME: &'static str = "USERNAME";

/// Title of the client's main window.
pub const CLIENT_WINDOW_TITLE: &'static str = "Riot Client";

/// A reference to an element of the UI tree. The caller keeps the element
/// itself and chooses the number that stands for it.
#[derive(Clone, Copy, Debug, PartialEq, Eq, Structural)]
pub struct ElementHandle {
    pub id: u64,
}

/// How a search for the login field ended.
#[derive(Clone, Copy, Debug, PartialEq, Eq, Structural)]
pub enum SearchOutcome {
    Found(ElementHandle),
    TimedOut,
}

/// The criterion by which the focused element was accepted as the login
/// field, in the order in which the criteria are tried.
#[derive(Clone, Copy, Debug, PartialEq, Eq, Structural)]
pub enum FocusRule {
    /// Its automation identifier is [`LOGIN_FIELD_AUTOMATION_ID`].
    AutomationId,
    /// Its accessible name is [`LOGIN_FIELD_NAME`].
    Name,
    /// It is an edit control of the target process.
    EditOfProcess,
    /// It is an edit control below a window of the client.
    EditUnderClientWindow,
}

/// What was read of the element that holds the keyboard focus. A property
/// that could not be read is `None`; a control type that could not be read
/// counts as no edit control.
#[derive(Debug)]
pub struct FocusedElement {
    pub handle: ElementHandle,
    pub automation_id: Option<String>,
    pub name: Option<String>,
    pub is_edit: bool,
    pub process_id: Option<u32>,
    /// Accessible names of the parent, the grandparent and so on, as far as
    /// the tree could be walked.
    pub ancestor_names: Vec<Option<String>>,
}

/// What a [`FocusedElement`] holds, as sequences of characters.
pub struct FocusedElementView {
    pub handle: ElementHandle,
    pub automation_id: Option<Seq<char>>,
    pub name: Option<Seq<char>>,
    pub is_edit: bool,
    pub process_id: Option<u32>,
    pub ancestor_names: Seq<Option<Seq<char>>>,
}

/// The characters of an optional string.
pub open spec fn text_of(s: Option<String>) -> Option<Seq<char>> {
    match s {
        Some(s) => Some(s@),
        None => None,
    }
}

impl View for FocusedElement {
    type V = FocusedElementView;

    open spec fn view(&self) -> FocusedElementView {
        FocusedElementView {
            handle: self.handle,
            automation_id: text_of(self.automation_id),
            name: text_of(self.name),
            is_edit: self.is_edit,
            process_id: self.process_id,
            ancestor_names: self.ancestor_names@.map_values(|n: Option<String>| text_of(n)),
        }
    }
}

/// Whether the ancestor at `depth` is a window of the client: its name
/// could be read and holds [`CLIENT_WINDOW_TITLE`].
pub open spec fn is_client_window_at(names: Seq<Option<Seq<char>>>, depth: int) -> bool {
    &&& 0 <= depth < names.len()
    &&& depth < MAX_ANCESTOR_DEPTH
    &&& names[depth] matches Some(name)
    &&& has_substring(name, CLIENT_WINDOW_TITLE@)
}

/// Whether one of the nearest [`MAX_ANCESTOR_DEPTH`] ancestors is a window of
/// the client.
pub open spec fn under_client_window(names: Seq<Option<Seq<char>>>) -> bool {
    exists|depth: int| is_client_window_at(names, depth)
}

/// The first criterion that accepts the focused element, if any does.
pub open spec fn matching_rule(e: FocusedElementView, target_pid: u32) -> Option<FocusRule> {
    if e.automation_id == Some(LOGIN_FIELD_AUTOMATION_ID@) {
        Some(FocusRule::AutomationId)
    } else if e.name == Some(LOGIN_FIELD_NAME@) {
        Some(FocusRule::Name)
    } else if e.is_edit && e.process_id == Some(target_pid) {
        Some(FocusRule::EditOfProcess)
    } else if e.is_edit && under_client_window(e.ancestor_names) {
        Some(FocusRule::EditUnderClientWindow)
    } else {
        None
    }
}

/// Whether `text` could be read and equals `expected`.
fn holds_text(text: &Option<String>, expected: &str) -> (r: bool)
    ensures
        r == (text_of(*text) == Some(expected@)),
{
    match text {
        Some(t) => same_text(t.as_str(), expected),
        None => false,
    }
}

/// Looks for a window of the client among the nearest ancestors.
pub fn has_client_window_ancestor(names: &Vec<Option<String>>) -> (r: bool)
    ensures
        r == under_client_window(names@.map_values(|n: Option<String>| text_of(n))),
{
    let ghost view = names@.map_values(|n: Option<String>| text_of(n));
    let mut depth: usize = 0;
    while depth < names.len() && depth < MAX_ANCESTOR_DEPTH
        invariant
            depth <= names.len(),
            depth <= MAX_ANCESTOR_DEPTH,
            view == names@.map_values(|n: Option<String>| text_of(n)),
            forall|d: int| 0 <= d < depth ==> !is_client_window_at(view, d),
        decreases names.len() - depth,
    {
        match &names[depth] {
            Some(name) => {
                if contains(name.as_str(), CLIENT_WINDOW_TITLE) {
                    assert(is_client_window_at(view, depth as int));
                    return true;
                }
            },
            None => {},
        }
        depth += 1;
    }
    false
}

/// Decides whether the focused element is the login field of the process
/// `target_pid`, and by which criterion.
pub fn focus_match(focused: &FocusedElement, target_pid: u32) -> (rule: Option<FocusRule>)
    ensures
        rule == matching_rule(focused@, target_pid),
{
    if holds_text(&focused.automation_id, LOGIN_FIELD_AUTOMATION_ID) {
        return Some(FocusRule::AutomationId);
    }
    if holds_text(&focused.name, LOGIN_FIELD_NAME) {
        return Some(FocusRule::Name);
    }
    if !focused.is_edit {
        return None;
    }
    let of_process = match focused.process_id {
        Some(pid) => pid == target_pid,
        None => false,
    };
    if of_process {
        return Some(FocusRule::EditOfProcess);
    }
    if has_client_window_ancestor(&focused.ancestor_names) {
        return Some(FocusRule::EditUnderClientWindow);
    }
    None
}

/// Left and right edge of a window on the screen.
#[derive(Clone, Copy, Debug, PartialEq, Eq, Structural)]
pub struct HorizontalExtent {
    pub left: i32,
    pub right: i32,
}

/// A window of the client as the slow path found it. The extent is `None`
/// where it could not be read.
#[derive(Clone, Copy, Debug, PartialEq, Eq, Structural)]
pub struct WindowSnapshot {
    pub handle: ElementHandle,
    pub extent: Option<HorizontalExtent>,
}

/// Whether a window is searched: its width is at least
/// [`MIN_WINDOW_WIDTH`], or is not known.
pub open spec fn is_candidate(window: WindowSnapshot) -> bool {
    match window.extent {
        Some(extent) => extent.right - extent.left >= MIN_WINDOW_WIDTH,
        None => true,
    }
}

/// The windows that are searched, in the order in which they were found.
pub open spec fn candidates(windows: Seq<WindowSnapshot>) -> Seq<ElementHandle> {
    windows.filter(|w: WindowSnapshot| is_candidate(w)).map_values(|w: WindowSnapshot| w.handle)
}

/// Decides whether a window is searched for the login field.
pub fn window_is_candidate(window: &WindowSnapshot) -> (r: bool)
    ensures
        r == is_candidate(*window),
{
    match window.extent {
        Some(extent) => {
            let left: i64 = extent.left as i64;
            let right: i64 = extent.right as i64;
            right - left >= MIN_WINDOW_WIDTH
        },
        None => true,
    }
}

/// Picks the windows that are searched.
pub fn candidate_windows(windows: &Vec<WindowSnapshot>) -> (queue: Vec<ElementHandle>)
    ensures
        queue@ == candidates(windows@),
{
    let ghost keep = |w: WindowSnapshot| is_candidate(w);
    let ghost handle = |w: WindowSnapshot| w.handle;
    let mut queue: Vec<ElementHandle> = Vec::new();
    let mut i: usize = 0;
    while i < windows.len()
        invariant
            i <= windows.len(),
            keep == |w: WindowSnapshot| is_candidate(w),
            handle == |w: WindowSnapshot| w.handle,
            queue@ == windows@.take(i as int).filter(keep).map_values(handle),
        decreases windows.len() - i,
    {
        proof {
            let seen = windows@.take(i as int);
            assert(windows@.take(i + 1) == seen.push(windows@[i as int]));
            seen.lemma_filter_push(windows@[i as int], keep);
        }
        if window_is_candidate(&windows[i]) {
            queue.push(windows[i].handle);
        }
        i += 1;
    }
    assert(windows@.take(i as int) == windows@);
    queue
}

/// Where a search stands.
#[derive(Clone, Copy, Debug, PartialEq, Eq, Structural)]
pub enum LocatorPhase {
    /// Nothing was asked for yet.
    Created,
    /// The focused element is being inspected.
    AwaitingFocus,
    /// The client's windows are being listed.
    AwaitingWindows,
    /// One window is being searched for an edit control.
    SearchingWindow,
    /// The pause between two ticks.
    Sleeping,
    /// The search is over.
    Finished(SearchOutcome),
}

/// What the caller is to do next.
#[derive(Clone, Copy, Debug, PartialEq, Eq, Structural)]
pub enum LocatorAction {
    /// Read the element that holds the keyboard focus and report it with
    /// [`LocatorEvent::Focus`].
    InspectFocus,
    /// List the windows that carry the client's title and report them with
    /// [`LocatorEvent::Windows`].
    ListWindows,
    /// Search `window` for its first edit control, for `timeout_ms` at most,
    /// and report with [`LocatorEvent::WindowSearched`].
    SearchWindow { window: ElementHandle, timeout_ms: u64 },
    /// Pause for `ms` and report with [`LocatorEvent::Slept`].
    Sleep { ms: u64 },
    /// The search is over.
    Finish(SearchOutcome),
}

/// What the caller reports.
#[derive(Debug)]
pub enum LocatorEvent {
    /// The search starts; `accessibility_ready` tells whether the
    /// accessibility subsystem could be set up.
    Begin { accessibility_ready: bool },
    /// The focused element, or `None` where none could be had.
    Focus(Option<FocusedElement>),
    /// The windows that carry the client's title; none where the listing
    /// failed.
    Windows(Vec<WindowSnapshot>),
    /// The first edit control of the window that was searched, if it has one.
    WindowSearched(Option<ElementHandle>),
    /// The pause is over.
    Slept,
}

/// A [`LocatorEvent`] as the specification sees it.
pub enum Observation {
    Begin { accessibility_ready: bool },
    Focus(Option<FocusedElementView>),
    Windows(Seq<WindowSnapshot>),
    WindowSearched(Option<ElementHandle>),
    Slept,
}

impl View for LocatorEvent {
    type V = Observation;

    open spec fn view(&self) -> Observation {
        match self {
            LocatorEvent::Begin { accessibility_ready } => Observation::Begin {
                accessibility_ready: *accessibility_ready,
            },
            LocatorEvent::Focus(Some(focused)) => Observation::Focus(Some(focused@)),
            LocatorEvent::Focus(None) => Observation::Focus(None),
            LocatorEvent::Windows(windows) => Observation::Windows(windows@),
            LocatorEvent::WindowSearched(found) => Observation::WindowSearched(*found),
            LocatorEvent::Slept => Observation::Slept,
        }
    }
}

/// An event that the locator did not ask for.
#[derive(Clone, Copy, Debug, PartialEq, Eq, Structural)]
pub enum LocatorError {
    /// The event does not answer the action that is outstanding. The locator
    /// is left as it was.
    OutOfTurn,
}

/// The state of a search, as the specification sees it.
pub struct LocatorState {
    pub target_pid: u32,
    pub budget_ms: u64,
    pub phase: LocatorPhase,
    /// Clock reading at which the search began.
    pub started_at: u64,
    /// Clock reading at which the windows were last listed, or at which the
    /// search began.
    pub last_slow_at: u64,
    /// Windows of the current listing that are still to be searched.
    pub pending: Seq<ElementHandle>,
}

/// Milliseconds from `then` to `now`; zero where the clock went back.
pub open spec fn since(now: u64, then: u64) -> int {
    if now >= then {
        now - then
    } else {
        0
    }
}

impl LocatorState {
    /// A search that has not begun.
    pub open spec fn fresh(target_pid: u32, budget_ms: u64) -> LocatorState {
        LocatorState {
            target_pid,
            budget_ms,
            phase: LocatorPhase::Created,
            started_at: 0,
            last_slow_at: 0,
            pending: Seq::empty(),
        }
    }

    /// The state with another phase.
    pub open spec fn at(self, phase: LocatorPhase) -> LocatorState {
        LocatorState { phase, ..self }
    }

    /// Start of a tick: the search goes on while the budget is not used up.
    pub open spec fn tick(self, now: u64) -> (LocatorState, LocatorAction) {
        if since(now, self.started_at) < self.budget_ms {
            (self.at(LocatorPhase::AwaitingFocus), LocatorAction::InspectFocus)
        } else {
            (
                self.at(LocatorPhase::Finished(SearchOutcome::TimedOut)),
                LocatorAction::Finish(SearchOutcome::TimedOut),
            )
        }
    }

    /// The search begins. Without the accessibility subsystem it is over at
    /// once.
    pub open spec fn begin(self, now: u64, accessibility_ready: bool) -> (
        LocatorState,
        LocatorAction,
    ) {
        if accessibility_ready {
            (LocatorState { started_at: now, last_slow_at: now, ..self }).tick(now)
        } else {
            (
                self.at(LocatorPhase::Finished(SearchOutcome::TimedOut)),
                LocatorAction::Finish(SearchOutcome::TimedOut),
            )
        }
    }

    /// The search ends with `handle`.
    pub open spec fn found(self, handle: ElementHandle) -> (LocatorState, LocatorAction) {
        (
            (LocatorState { pending: Seq::empty(), ..self }).at(
                LocatorPhase::Finished(SearchOutcome::Found(handle)),
            ),
            LocatorAction::Finish(SearchOutcome::Found(handle)),
        )
    }

    /// End of the fast path without a match: the windows are listed where
    /// the last listing is more than [`SLOW_INTERVAL_MS`] back, else the
    /// tick is over.
    pub open spec fn after_fast_path(self, now: u64) -> (LocatorState, LocatorAction) {
        if since(now, self.last_slow_at) > SLOW_INTERVAL_MS {
            (
                (LocatorState { last_slow_at: now, ..self }).at(LocatorPhase::AwaitingWindows),
                LocatorAction::ListWindows,
            )
        } else {
            (self.at(LocatorPhase::Sleeping), LocatorAction::Sleep { ms: FAST_TICK_MS })
        }
    }

    /// The fast path: the focused element is accepted where a criterion
    /// matches it.
    pub open spec fn focus(self, now: u64, focused: Option<FocusedElementView>) -> (
        LocatorState,
        LocatorAction,
    ) {
        match focused {
            Some(e) if matching_rule(e, self.target_pid) is Some => self.found(e.handle),
            _ => self.after_fast_path(now),
        }
    }

    /// The next window of `queue` is searched; behind the last one the tick
    /// is over.
    pub open spec fn search_next(self, queue: Seq<ElementHandle>) -> (
        LocatorState,
        LocatorAction,
    ) {
        if queue.len() > 0 {
            (
                (LocatorState { pending: queue.drop_first(), ..self }).at(
                    LocatorPhase::SearchingWindow,
                ),
                LocatorAction::SearchWindow {
                    window: queue.first(),
                    timeout_ms: WINDOW_SEARCH_TIMEOUT_MS,
                },
            )
        } else {
            (
                (LocatorState { pending: Seq::empty(), ..self }).at(LocatorPhase::Sleeping),
                LocatorAction::Sleep { ms: FAST_TICK_MS },
            )
        }
    }

    /// The slow path: the first edit control that a searched window has ends
    /// the search.
    pub open spec fn window_searched(self, found: Option<ElementHandle>) -> (
        LocatorState,
        LocatorAction,
    ) {
        match found {
            Some(handle) => self.found(handle),
            None => self.search_next(self.pending),
        }
    }

    /// Whether `observation` answers the action that is outstanding.
    pub open spec fn expects(self, observation: Observation) -> bool {
        match (self.phase, observation) {
            (LocatorPhase::Created, Observation::Begin { .. }) => true,
            (LocatorPhase::AwaitingFocus, Observation::Focus(_)) => true,
            (LocatorPhase::AwaitingWindows, Observation::Windows(_)) => true,
            (LocatorPhase::SearchingWindow, Observation::WindowSearched(_)) => true,
            (LocatorPhase::Sleeping, Observation::Slept) => true,
            _ => false,
        }
    }

    /// The state and the action that follow when `observation` arrives at
    /// the clock reading `now` and answers the outstanding action.
    pub open spec fn react(self, now: u64, observation: Observation) -> (
        LocatorState,
        LocatorAction,
    ) {
        match observation {
            Observation::Begin { accessibility_ready } => self.begin(now, accessibility_ready),
            Observation::Focus(focused) => self.focus(now, focused),
            Observation::Windows(windows) => self.search_next(candidates(windows)),
            Observation::WindowSearched(found) => self.window_searched(found),
            Observation::Slept => self.tick(now),
        }
    }

    /// One step of the search: an observation that was not asked for is
    /// refused and changes nothing.
    pub open spec fn step(self, now: u64, observation: Observation) -> (
        LocatorState,
        Result<LocatorAction, LocatorError>,
    ) {
        if self.expects(observation) {
            let (next, action) = self.react(now, observation);
            (next, Ok(action))
        } else {
            (self, Err(LocatorError::OutOfTurn))
        }
    }
}

/// One search for the login field of one process.
#[derive(Debug)]
pub struct Locator {
    target_pid: u32,
    budget_ms: u64,
    phase: LocatorPhase,
    started_at: u64,
    last_slow_at: u64,
    queue: Vec<ElementHandle>,
    next: usize,
}

impl View for Locator {
    type V = LocatorState;

    closed spec fn view(&self) -> LocatorState {
        LocatorState {
            target_pid: self.target_pid,
            budget_ms: self.budget_ms,
            phase: self.phase,
            started_at: self.started_at,
            last_slow_at: self.last_slow_at,
            pending: if self.next <= self.queue@.len() {
                self.queue@.skip(self.next as int)
            } else {
                Seq::empty()
            },
        }
    }
}

/// Milliseconds from `then` to `now`; zero where the clock went back.
fn elapsed(now: u64, then: u64) -> (ms: u64)
    ensures
        ms == since(now, then),
{
    if now >= then {
        now - then
    } else {
        0
    }
}

impl Locator {
    /// A search for the login field of the process `target_pid` that may
    /// take `budget_ms` in all.
    pub fn new(target_pid: u32, budget_ms: u64) -> (locator: Locator)
        ensures
            locator@ == LocatorState::fresh(target_pid, budget_ms),
    {
        let locator = Locator {
            target_pid,
            budget_ms,
            phase: LocatorPhase::Created,
            started_at: 0,
            last_slow_at: 0,
            queue: Vec::new(),
            next: 0,
        };
        assert(locator@.pending =~= Seq::empty());
        locator
    }

    /// Where the search stands.
    pub fn phase(&self) -> (phase: LocatorPhase)
        ensures
            phase == self@.phase,
    {
        self.phase
    }

    /// The process whose login field is searched for.
    pub fn target_pid(&self) -> (pid: u32)
        ensures
            pid == self@.target_pid,
    {
        self.target_pid
    }

    /// The time that the search may take in all.
    pub fn budget_ms(&self) -> (ms: u64)
        ensures
            ms == self@.budget_ms,
    {
        self.budget_ms
    }

    /// How the search ended, once it has.
    pub fn outcome(&self) -> (outcome: Option<SearchOutcome>)
        ensures
            outcome == match self@.phase {
                LocatorPhase::Finished(o) => Some(o),
                _ => None,
            },
    {
        match self.phase {
            LocatorPhase::Finished(o) => Some(o),
            _ => None,
        }
    }

    fn tick(&mut self, now: u64) -> (action: LocatorAction)
        ensures
            (final(self)@, action) == old(self)@.tick(now),
    {
        if elapsed(now, self.started_at) < self.budget_ms {
            self.phase = LocatorPhase::AwaitingFocus;
            LocatorAction::InspectFocus
        } else {
            self.phase = LocatorPhase::Finished(SearchOutcome::TimedOut);
            LocatorAction::Finish(SearchOutcome::TimedOut)
        }
    }

    fn found(&mut self, handle: ElementHandle) -> (action: LocatorAction)
        ensures
            (final(self)@, action) == old(self)@.found(handle),
    {
        self.queue = Vec::new();
        self.next = 0;
        self.phase = LocatorPhase::Finished(SearchOutcome::Found(handle));
        assert(self@.pending =~= Seq::empty());
        LocatorAction::Finish(SearchOutcome::Found(handle))
    }

    fn search_next(&mut self) -> (action: LocatorAction)
        ensures
            (final(self)@, action) == old(self)@.search_next(old(self)@.pending),
    {
        if self.next < self.queue.len() {
            let window = self.queue[self.next];
            self.next = self.next + 1;
            self.phase = LocatorPhase::SearchingWindow;
            assert(self@.pending =~= old(self)@.pending.drop_first());
            LocatorAction::SearchWindow { window, timeout_ms: WINDOW_SEARCH_TIMEOUT_MS }
        } else {
            self.queue = Vec::new();
            self.next = 0;
            self.phase = LocatorPhase::Sleeping;
            assert(self@.pending =~= Seq::empty());
            LocatorAction::Sleep { ms: FAST_TICK_MS }
        }
    }

    fn after_fast_path(&mut self, now: u64) -> (action: LocatorAction)
        ensures
            (final(self)@, action) == old(self)@.after_fast_path(now),
    {
        if elapsed(now, self.last_slow_at) > SLOW_INTERVAL_MS {
            self.last_slow_at = now;
            self.phase = LocatorPhase::AwaitingWindows;
            LocatorAction::ListWindows
        } else {
            self.phase = LocatorPhase::Sleeping;
            LocatorAction::Sleep { ms: FAST_TICK_MS }
        }
    }

    /// Takes what the caller reports at the clock reading `now` and says
    /// what is to be done next. An event that does not answer the action
    /// that is outstanding is refused, and the locator stays as it was.
    pub fn step(&mut self, now: u64, event: LocatorEvent) -> (r: Result<
        LocatorAction,
        LocatorError,
    >)
        ensures
            (final(self)@, r) == old(self)@.step(now, event@),
    {
        match (self.phase, event) {
            (LocatorPhase::Created, LocatorEvent::Begin { accessibility_ready }) => {
                if accessibility_ready {
                    self.started_at = now;
                    self.last_slow_at = now;
                    Ok(self.tick(now))
                } else {
                    self.phase = LocatorPhase::Finished(SearchOutcome::TimedOut);
                    Ok(LocatorAction::Finish(SearchOutcome::TimedOut))
                }
            },
            (LocatorPhase::AwaitingFocus, LocatorEvent::Focus(focused)) => {
                let accepted = match &focused {
                    Some(e) => focus_match(e, self.target_pid).is_some(),
                    None => false,
                };
                match focused {
                    Some(e) if accepted => Ok(self.found(e.handle)),
                    _ => Ok(self.after_fast_path(now)),
                }
            },
            (LocatorPhase::AwaitingWindows, LocatorEvent::Windows(windows)) => {
                self.queue = candidate_windows(&windows);
                self.next = 0;
                assert(self@.pending =~= candidates(windows@));
                Ok(self.search_next())
            },
            (LocatorPhase::SearchingWindow, LocatorEvent::WindowSearched(found)) => {
                match found {
                    Some(handle) => Ok(self.found(handle)),
                    None => Ok(self.search_next()),
                }
            },
            (LocatorPhase::Sleeping, LocatorEvent::Slept) => Ok(self.tick(now)),
            _ => Err(LocatorError::OutOfTurn),
        }
    }
}

} // verus!
