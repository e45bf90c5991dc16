//! One login attempt from the click to the last keystroke, and the register
//! of the attempts that are under way.
//!
//! An [`Attempt`] is a state machine. The caller hands it what happened as an
//! [`AttemptEvent`] and is told what to do next as an [`AttemptAction`]: start
//! the process, run a search, run an injection. Only the launch is answered
//! to the user at once; everything behind it belongs to a task of its own.

use crate::credentials::{Credentials, CredentialsView};
use crate::injector::{injection_plan, injection_sequence, steps_of, InputStep, InputStepView};
use crate::launcher::{launch_plan, launch_spec, LaunchError, LaunchSpec, LaunchSpecView};
use crate::locator::{ElementHandle, SearchOutcome, SEARCH_BUDGET_MS};
use vstd::prelude::*;

verus! {

/// Where an attempt stands.
#[derive(Clone, Copy, Debug, PartialEq, Eq, Structural)]
pub enum Phase {
    /// Nothing was asked for yet.
    Idle,
    /// The process is being started.
    Launching,
    /// The process was not started, or an attempt on it is under way. Final.
    LaunchFailed,
    /// The login field is being searched for.
    Searching,
    /// The search found the field.
    Found,
    /// The search gave up.
    TimedOut,
    /// The credentials are being typed into the field that was found.
    Injecting,
    /// The credentials are being typed into whatever holds the focus.
    InjectingBlind,
    /// The keystrokes are out. Final.
    Completed,
}

/// How an attempt ended.
#[derive(Clone, Copy, Debug, PartialEq, Eq, Structural)]
pub enum Completion {
    /// The field was found and the credentials were typed into it.
    Success,
    /// The search gave up and the credentials were typed blind.
    TimedOut,
    /// The attempt ended with the launch.
    LaunchFailed(LaunchError),
}

/// What the caller reports to an attempt.
#[derive(Clone, Copy, Debug, PartialEq, Eq, Structural)]
pub enum AttemptEvent {
    /// The user asked for the login.
    Start,
    /// The process runs under `pid`.
    Spawned { pid: u32 },
    /// The operating system did not create the process.
    SpawnFailed,
    /// The search ended.
    Located(SearchOutcome),
    /// Nothing happened: the attempt asked to be called again.
    Proceed,
    /// The injection ran to its end.
    Injected,
}

/// What the caller is to do next.
#[derive(Debug)]
pub enum AttemptAction {
    /// Start the process and report [`AttemptEvent::Spawned`] or
    /// [`AttemptEvent::SpawnFailed`].
    Spawn(LaunchSpec),
    /// Tell the user that the login failed. The attempt is over and no task
    /// is started for it.
    Fail(LaunchError),
    /// Tell the user that the client was started. On a task of its own, run
    /// a search for the login field of `target_pid` with `budget_ms` and
    /// report [`AttemptEvent::Located`].
    Locate { target_pid: u32, budget_ms: u64 },
    /// Report [`AttemptEvent::Proceed`].
    Proceed,
    /// Perform the steps in their order and report
    /// [`AttemptEvent::Injected`].
    Inject(Vec<InputStep>),
    /// The attempt is over.
    Complete(Completion),
}

/// An [`AttemptAction`] as the specification sees it.
pub enum AttemptActionView {
    Spawn(LaunchSpecView),
    Fail(LaunchError),
    Locate { target_pid: u32, budget_ms: u64 },
    Proceed,
    Inject(Seq<InputStepView>),
    Complete(Completion),
}

impl View for AttemptAction {
    type V = AttemptActionView;

    open spec fn view(&self) -> AttemptActionView {
        match self {
            AttemptAction::Spawn(spec) => AttemptActionView::Spawn(spec@),
            AttemptAction::Fail(error) => AttemptActionView::Fail(*error),
            AttemptAction::Locate { target_pid, budget_ms } => AttemptActionView::Locate {
                target_pid: *target_pid,
                budget_ms: *budget_ms,
            },
            AttemptAction::Proceed => AttemptActionView::Proceed,
            AttemptAction::Inject(plan) => AttemptActionView::Inject(steps_of(plan@)),
            AttemptAction::Complete(completion) => AttemptActionView::Complete(*completion),
        }
    }
}

/// An event that the attempt did not ask for.
#[derive(Clone, Copy, Debug, PartialEq, Eq, Structural)]
pub enum EngineError {
    /// The event does not answer the action that is outstanding. The attempt
    /// and the register are left as they were.
    OutOfTurn,
}

/// What [`Attempt::advance`] answers, by its view.
pub open spec fn answer_of(r: Result<AttemptAction, EngineError>) -> Result<
    AttemptActionView,
    EngineError,
> {
    match r {
        Ok(action) => Ok(action@),
        Err(error) => Err(error),
    }
}

/// The state of an attempt, as the specification sees it.
pub struct AttemptState {
    pub phase: Phase,
    pub credentials: CredentialsView,
    pub launch: LaunchSpecView,
    /// The process of the attempt, once it runs.
    pub pid: Option<u32>,
    /// How the search ended, once it has.
    pub outcome: Option<SearchOutcome>,
    /// Why the launch failed, if it did.
    pub failure: Option<LaunchError>,
}

impl AttemptState {
    /// An attempt before the user asked for anything.
    pub open spec fn initial(
        username: Seq<char>,
        password: Seq<char>,
        configured_path: Seq<char>,
    ) -> AttemptState {
        AttemptState {
            phase: Phase::Idle,
            credentials: CredentialsView { username, password },
            launch: launch_plan(configured_path),
            pid: None,
            outcome: None,
            failure: None,
        }
    }

    /// The state with another phase.
    pub open spec fn at(self, phase: Phase) -> AttemptState {
        AttemptState { phase, ..self }
    }

    /// Whether a search or an injection of this attempt is under way.
    pub open spec fn in_flight(self) -> bool {
        ||| self.phase == Phase::Searching
        ||| self.phase == Phase::Found
        ||| self.phase == Phase::TimedOut
        ||| self.phase == Phase::Injecting
        ||| self.phase == Phase::InjectingBlind
    }

    /// The element that the search found, if it found one.
    pub open spec fn target(self) -> Option<ElementHandle> {
        match self.outcome {
            Some(SearchOutcome::Found(handle)) => Some(handle),
            _ => None,
        }
    }

    /// How the attempt ended, once it has.
    pub open spec fn completion(self) -> Option<Completion> {
        match self.phase {
            Phase::LaunchFailed => Some(
                Completion::LaunchFailed(
                    match self.failure {
                        Some(error) => error,
                        None => LaunchError::SpawnFailed,
                    },
                ),
            ),
            Phase::Completed => Some(
                if self.target() is Some {
                    Completion::Success
                } else {
                    Completion::TimedOut
                },
            ),
            _ => None,
        }
    }

    /// The launch failed: the attempt is over.
    pub open spec fn fail(self, error: LaunchError) -> (AttemptState, AttemptActionView) {
        (
            (AttemptState { failure: Some(error), ..self }).at(Phase::LaunchFailed),
            AttemptActionView::Fail(error),
        )
    }

    /// The register without the process of this attempt.
    pub open spec fn released(self, registry: Set<u32>) -> Set<u32> {
        match self.pid {
            Some(pid) => registry.remove(pid),
            None => registry,
        }
    }

    /// Whether `event` answers the action that is outstanding.
    pub open spec fn expects(self, event: AttemptEvent) -> bool {
        match (self.phase, event) {
            (Phase::Idle, AttemptEvent::Start) => true,
            (Phase::Launching, AttemptEvent::Spawned { .. }) => true,
            (Phase::Launching, AttemptEvent::SpawnFailed) => true,
            (Phase::Searching, AttemptEvent::Located(_)) => true,
            (Phase::Found, AttemptEvent::Proceed) => true,
            (Phase::TimedOut, AttemptEvent::Proceed) => true,
            (Phase::Injecting, AttemptEvent::Injected) => true,
            (Phase::InjectingBlind, AttemptEvent::Injected) => true,
            _ => false,
        }
    }

    /// The state, the register and the action that follow when `event`
    /// answers the outstanding action. `registry` holds the processes on
    /// which an attempt is under way.
    pub open spec fn react(self, registry: Set<u32>, event: AttemptEvent) -> (
        AttemptState,
        Set<u32>,
        AttemptActionView,
    ) {
        match event {
            AttemptEvent::Start => (
                self.at(Phase::Launching),
                registry,
                AttemptActionView::Spawn(self.launch),
            ),
            AttemptEvent::SpawnFailed => {
                let (next, action) = self.fail(LaunchError::SpawnFailed);
                (next, registry, action)
            },
            AttemptEvent::Spawned { pid } => {
                if registry.contains(pid) {
                    let (next, action) = self.fail(LaunchError::AlreadyInFlight);
                    (next, registry, action)
                } else {
                    (
                        (AttemptState { pid: Some(pid), ..self }).at(Phase::Searching),
                        registry.insert(pid),
                        AttemptActionView::Locate { target_pid: pid, budget_ms: SEARCH_BUDGET_MS },
                    )
                }
            },
            AttemptEvent::Located(outcome) => (
                (AttemptState { outcome: Some(outcome), ..self }).at(
                    match outcome {
                        SearchOutcome::Found(_) => Phase::Found,
                        SearchOutcome::TimedOut => Phase::TimedOut,
                    },
                ),
                registry,
                AttemptActionView::Proceed,
            ),
            AttemptEvent::Proceed => (
                self.at(
                    if self.phase == Phase::Found {
                        Phase::Injecting
                    } else {
                        Phase::InjectingBlind
                    },
                ),
                registry,
                AttemptActionView::Inject(
                    injection_sequence(
                        if self.phase == Phase::Found {
                            self.target()
                        } else {
                            None
                        },
                        self.credentials.username,
                        self.credentials.password,
                    ),
                ),
            ),
            AttemptEvent::Injected => (
                self.at(Phase::Completed),
                self.released(registry),
                AttemptActionView::Complete(
                    if self.phase == Phase::Injecting {
                        Completion::Success
                    } else {
                        Completion::TimedOut
                    },
                ),
            ),
        }
    }

    /// One step of an attempt: an event that was not asked for is refused
    /// and changes nothing.
    pub open spec fn step(self, registry: Set<u32>, event: AttemptEvent) -> (
        AttemptState,
        Set<u32>,
        Result<AttemptActionView, EngineError>,
    ) {
        if self.expects(event) {
            let (next, registry, action) = self.react(registry, event);
            (next, registry, Ok(action))
        } else {
            (self, registry, Err(EngineError::OutOfTurn))
        }
    }
}

/// The register of the processes on which an attempt is under way. It is
/// what keeps a second attempt on a process from running beside the first.
#[derive(Debug)]
pub struct LoginAutomationEngine {
    in_flight: Vec<u32>,
}

impl View for LoginAutomationEngine {
    type V = Set<u32>;

    closed spec fn view(&self) -> Set<u32> {
        self.in_flight@.to_set()
    }
}

impl LoginAutomationEngine {
    /// An engine with no attempt under way.
    pub fn new() -> (engine: LoginAutomationEngine)
        ensures
            engine@ == Set::<u32>::empty(),
    {
        let engine = LoginAutomationEngine { in_flight: Vec::new() };
        assert(engine@ =~= Set::<u32>::empty());
        engine
    }

    /// Whether an attempt on the process `pid` is under way.
    pub fn is_in_flight(&self, pid: u32) -> (r: bool)
        ensures
            r == self@.contains(pid),
    {
        let mut i: usize = 0;
        while i < self.in_flight.len()
            invariant
                i <= self.in_flight.len(),
                forall|k: int| 0 <= k < i ==> self.in_flight[k] != pid,
            decreases self.in_flight.len() - i,
        {
            if self.in_flight[i] == pid {
                assert(self.in_flight@.contains(pid));
                return true;
            }
            i += 1;
        }
        assert(!self.in_flight@.contains(pid));
        false
    }

    /// Enters `pid` unless an attempt on it is under way; says whether it
    /// was entered.
    pub fn register(&mut self, pid: u32) -> (entered: bool)
        ensures
            entered == !old(self)@.contains(pid),
            final(self)@ == old(self)@.insert(pid),
    {
        if self.is_in_flight(pid) {
            assert(self@.insert(pid) =~= self@);
            false
        } else {
            proof {
                lemma_push_to_set(self.in_flight@, pid);
            }
            self.in_flight.push(pid);
            true
        }
    }

    /// Strikes `pid` from the register.
    pub fn release(&mut self, pid: u32)
        ensures
            final(self)@ == old(self)@.remove(pid),
    {
        let mut kept: Vec<u32> = Vec::new();
        let mut i: usize = 0;
        while i < self.in_flight.len()
            invariant
                i <= self.in_flight.len(),
                kept@.to_set() == self.in_flight@.take(i as int).to_set().remove(pid),
            decreases self.in_flight.len() - i,
        {
            let entry = self.in_flight[i];
            proof {
                let seen = self.in_flight@.take(i as int);
                assert(self.in_flight@.take(i + 1) == seen.push(entry));
                lemma_push_to_set(seen, entry);
                if entry != pid {
                    lemma_push_to_set(kept@, entry);
                }
            }
            if entry != pid {
                kept.push(entry);
            }
            i += 1;
        }
        assert(self.in_flight@.take(i as int) == self.in_flight@);
        self.in_flight = kept;
    }
}

/// The members of a sequence with one more entry are its members and the
/// entry.
proof fn lemma_push_to_set(s: Seq<u32>, entry: u32)
    ensures
        s.push(entry).to_set() == s.to_set().insert(entry),
{
    assert forall|p: u32| s.push(entry).to_set().contains(p) <==> s.to_set().insert(
        entry,
    ).contains(p) by {
        if s.contains(p) {
            let k = choose|k: int| 0 <= k < s.len() && s[k] == p;
            assert(s.push(entry)[k] == p);
        }
        if p == entry {
            assert(s.push(entry)[s.len() as int] == p);
        }
    }
    assert(s.push(entry).to_set() =~= s.to_set().insert(entry));
}

/// One login attempt.
#[derive(Debug)]
pub struct Attempt {
    phase: Phase,
    credentials: Credentials,
    launch: LaunchSpec,
    pid: Option<u32>,
    outcome: Option<SearchOutcome>,
    failure: Option<LaunchError>,
}

impl View for Attempt {
    type V = AttemptState;

    closed spec fn view(&self) -> AttemptState {
        AttemptState {
            phase: self.phase,
            credentials: self.credentials@,
            launch: self.launch@,
            pid: self.pid,
            outcome: self.outcome,
            failure: self.failure,
        }
    }
}

impl Attempt {
    /// An attempt to log in with `credentials` through the client at
    /// `configured_path`, before anything was asked for.
    pub fn new(credentials: Credentials, configured_path: String) -> (attempt: Attempt)
        ensures
            attempt@ == AttemptState::initial(
                credentials@.username,
                credentials@.password,
                configured_path@,
            ),
    {
        Attempt {
            phase: Phase::Idle,
            credentials,
            launch: launch_spec(configured_path),
            pid: None,
            outcome: None,
            failure: None,
        }
    }

    /// Where the attempt stands.
    pub fn phase(&self) -> (phase: Phase)
        ensures
            phase == self@.phase,
    {
        self.phase
    }

    /// The process of the attempt, once it runs.
    pub fn pid(&self) -> (pid: Option<u32>)
        ensures
            pid == self@.pid,
    {
        self.pid
    }

    /// How the search ended, once it has.
    pub fn outcome(&self) -> (outcome: Option<SearchOutcome>)
        ensures
            outcome == self@.outcome,
    {
        self.outcome
    }

    /// Whether a search or an injection of this attempt is under way.
    pub fn in_flight(&self) -> (r: bool)
        ensures
            r == self@.in_flight(),
    {
        match self.phase {
            Phase::Searching
            | Phase::Found
            | Phase::TimedOut
            | Phase::Injecting
            | Phase::InjectingBlind => true,
            _ => false,
        }
    }

    /// How the attempt ended, once it has.
    pub fn completion(&self) -> (completion: Option<Completion>)
        ensures
            completion == self@.completion(),
    {
        match self.phase {
            Phase::LaunchFailed => {
                let error = match self.failure {
                    Some(error) => error,
                    None => LaunchError::SpawnFailed,
                };
                Some(Completion::LaunchFailed(error))
            },
            Phase::Completed => {
                match self.outcome {
                    Some(SearchOutcome::Found(_)) => Some(Completion::Success),
                    _ => Some(Completion::TimedOut),
                }
            },
            _ => None,
        }
    }

    fn fail(&mut self, error: LaunchError) -> (action: AttemptAction)
        ensures
            (final(self)@, action@) == old(self)@.fail(error),
    {
        self.failure = Some(error);
        self.phase = Phase::LaunchFailed;
        AttemptAction::Fail(error)
    }

    /// Takes what the caller reports and says what is to be done next.
    /// `engine` is the register that all attempts share. An event that does
    /// not answer the action that is outstanding is refused, and attempt and
    /// register stay as they were.
    pub fn advance(&mut self, engine: &mut LoginAutomationEngine, event: AttemptEvent) -> (r:
        Result<AttemptAction, EngineError>)
        ensures
            (final(self)@, final(engine)@, answer_of(r)) == old(self)@.step(old(engine)@, event),
    {
        match (self.phase, event) {
            (Phase::Idle, AttemptEvent::Start) => {
                self.phase = Phase::Launching;
                Ok(AttemptAction::Spawn(self.launch.clone()))
            },
            (Phase::Launching, AttemptEvent::SpawnFailed) => {
                Ok(self.fail(LaunchError::SpawnFailed))
            },
            (Phase::Launching, AttemptEvent::Spawned { pid }) => {
                if engine.register(pid) {
                    self.pid = Some(pid);
                    self.phase = Phase::Searching;
                    Ok(AttemptAction::Locate { target_pid: pid, budget_ms: SEARCH_BUDGET_MS })
                } else {
                    assert(engine@ =~= old(engine)@);
                    Ok(self.fail(LaunchError::AlreadyInFlight))
                }
            },
            (Phase::Searching, AttemptEvent::Located(outcome)) => {
                self.outcome = Some(outcome);
                self.phase = match outcome {
                    SearchOutcome::Found(_) => Phase::Found,
                    SearchOutcome::TimedOut => Phase::TimedOut,
                };
                Ok(AttemptAction::Proceed)
            },
            (Phase::Found, AttemptEvent::Proceed) => {
                let target = match self.outcome {
                    Some(SearchOutcome::Found(handle)) => Some(handle),
                    _ => None,
                };
                self.phase = Phase::Injecting;
                Ok(AttemptAction::Inject(injection_plan(target, &self.credentials)))
            },
            (Phase::TimedOut, AttemptEvent::Proceed) => {
                self.phase = Phase::InjectingBlind;
                Ok(AttemptAction::Inject(injection_plan(None, &self.credentials)))
            },
            (Phase::Injecting, AttemptEvent::Injected) => {
                self.release_from(engine);
                self.phase = Phase::Completed;
                Ok(AttemptAction::Complete(Completion::Success))
            },
            (Phase::InjectingBlind, AttemptEvent::Injected) => {
                self.release_from(engine);
                self.phase = Phase::Completed;
                Ok(AttemptAction::Complete(Completion::TimedOut))
            },
            _ => Err(EngineError::OutOfTurn),
        }
    }

    fn release_from(&self, engine: &mut LoginAutomationEngine)
        ensures
            final(engine)@ == self@.released(old(engine)@),
    {
        match self.pid {
            Some(pid) => engine.release(pid),
            None => {},
        }
    }
}

/// Begins a login: the attempt for these credentials, already asked to
/// start, and the request to start the client that it answered with.
pub fn launch_and_login(username: String, password: String, riot_path: String) -> (started: (
    Attempt,
    AttemptAction,
))
    ensures
        started.0@ == AttemptState::initial(username@, password@, riot_path@).at(Phase::Launching),
        started.1@ == AttemptActionView::Spawn(launch_plan(riot_path@)),
{
    let mut attempt = Attempt::new(Credentials { username, password }, riot_path);
    let action = AttemptAction::Spawn(attempt.launch.clone());
    attempt.phase = Phase::Launching;
    (attempt, action)
}

} // verus!
