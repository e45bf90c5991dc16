//! What holds of every search for the login field, proved of the transition
//! function of the locator.

use crate::locator::{
    matching_rule, since, FocusedElementView, LocatorAction, LocatorError, LocatorPhase,
    LocatorState, Observation, SearchOutcome, FAST_TICK_MS, LOGIN_FIELD_AUTOMATION_ID,
    SLOW_INTERVAL_MS,
};
use vstd::prelude::*;

verus! {

/// An observation that gives the search nothing to find: the accessibility
/// subsystem is there, the focused element matches no criterion, and no
/// searched window has an edit control.
pub open spec fn is_quiet(observation: Observation, target_pid: u32) -> bool {
    match observation {
        Observation::Begin { accessibility_ready } => accessibility_ready,
        Observation::Focus(Some(e)) => matching_rule(e, target_pid) is None,
        Observation::WindowSearched(Some(_)) => false,
        _ => true,
    }
}

/// The state in which a search is after the observations of `trace`, each
/// with the clock reading at which it arrived.
pub open spec fn run(start: LocatorState, trace: Seq<(u64, Observation)>) -> LocatorState
    decreases trace.len(),
{
    if trace.len() == 0 {
        start
    } else {
        run(start, trace.drop_last()).step(trace.last().0, trace.last().1).0
    }
}

/// A trace on a clock that does not go back and on which every pause lasts
/// one tick at least.
pub open spec fn paced(trace: Seq<(u64, Observation)>) -> bool {
    &&& forall|i: int, j: int|
        0 <= i <= j < trace.len() ==> (#[trigger] trace[i]).0 <= (#[trigger] trace[j]).0
    &&& forall|i: int|
        0 < i < trace.len() && (#[trigger] trace[i]).1 == Observation::Slept ==> trace[i].0
            - trace[i - 1].0 >= FAST_TICK_MS
}

/// Number of pauses that a search has made after the observations of
/// `trace`.
pub open spec fn pauses(start: LocatorState, trace: Seq<(u64, Observation)>) -> nat
    decreases trace.len(),
{
    if trace.len() == 0 {
        0
    } else {
        let before = run(start, trace.drop_last());
        let here: nat = if before.phase == LocatorPhase::Sleeping && trace.last().1
            == Observation::Slept {
            1
        } else {
            0
        };
        pauses(start, trace.drop_last()) + here
    }
}

/// Position of a phase within a tick: the later the phase, the smaller.
pub open spec fn phase_rank(phase: LocatorPhase) -> int {
    match phase {
        LocatorPhase::Created => 4,
        LocatorPhase::AwaitingFocus => 3,
        LocatorPhase::AwaitingWindows => 2,
        LocatorPhase::SearchingWindow => 1,
        LocatorPhase::Sleeping => 0,
        LocatorPhase::Finished(_) => 0,
    }
}

/// A focused element with the automation identifier of the login field ends
/// the search with that element on the very tick on which it is seen,
/// whatever the clock reads and whenever the windows were last listed.
pub proof fn law_focused_login_field_is_found(
    s: LocatorState,
    now: u64,
    focused: FocusedElementView,
)
    requires
        s.phase == LocatorPhase::AwaitingFocus,
        focused.automation_id == Some(LOGIN_FIELD_AUTOMATION_ID@),
    ensures
        s.step(now, Observation::Focus(Some(focused))).1 == Ok::<LocatorAction, LocatorError>(
            LocatorAction::Finish(SearchOutcome::Found(focused.handle)),
        ),
        s.step(now, Observation::Focus(Some(focused))).0.phase == LocatorPhase::Finished(
            SearchOutcome::Found(focused.handle),
        ),
{
}

/// Any criterion ends the search with the focused element: the slow path is
/// not waited for.
pub proof fn law_accepted_focus_is_found(s: LocatorState, now: u64, focused: FocusedElementView)
    requires
        s.phase == LocatorPhase::AwaitingFocus,
        matching_rule(focused, s.target_pid) is Some,
    ensures
        s.step(now, Observation::Focus(Some(focused))).1 == Ok::<LocatorAction, LocatorError>(
            LocatorAction::Finish(SearchOutcome::Found(focused.handle)),
        ),
{
}

/// The search is given up only at the start of a tick at which the budget
/// is used up, or at once where the accessibility subsystem is missing:
/// never earlier.
pub proof fn law_no_timeout_before_budget_is_spent(
    s: LocatorState,
    now: u64,
    observation: Observation,
)
    requires
        s.step(now, observation).1 == Ok::<LocatorAction, LocatorError>(
            LocatorAction::Finish(SearchOutcome::TimedOut),
        ),
    ensures
        ({
            ||| s.phase == LocatorPhase::Sleeping && observation == Observation::Slept && since(
                now,
                s.started_at,
            ) >= s.budget_ms
            ||| s.phase == LocatorPhase::Created && observation == (Observation::Begin {
                accessibility_ready: true,
            }) && s.budget_ms == 0
            ||| s.phase == LocatorPhase::Created && observation == (Observation::Begin {
                accessibility_ready: false,
            })
        }),
{
}

/// The first tick that starts when the budget is used up ends the search
/// with `TimedOut`: the search overruns its budget by less than one tick.
pub proof fn law_timeout_when_budget_is_spent(s: LocatorState, now: u64)
    requires
        s.phase == LocatorPhase::Sleeping,
        since(now, s.started_at) >= s.budget_ms,
    ensures
        s.step(now, Observation::Slept) == (
            s.at(LocatorPhase::Finished(SearchOutcome::TimedOut)),
            Ok::<LocatorAction, LocatorError>(LocatorAction::Finish(SearchOutcome::TimedOut)),
        ),
{
}

/// Without the accessibility subsystem the search is over at once, with
/// `TimedOut`, and nothing is polled.
pub proof fn law_missing_accessibility_ends_search(target_pid: u32, budget_ms: u64, now: u64)
    ensures
        LocatorState::fresh(target_pid, budget_ms).step(
            now,
            Observation::Begin { accessibility_ready: false },
        ).1 == Ok::<LocatorAction, LocatorError>(LocatorAction::Finish(SearchOutcome::TimedOut)),
{
}

/// A search that is over takes no further observation and stays as it is.
pub proof fn law_finished_search_is_final(s: LocatorState, now: u64, observation: Observation)
    requires
        s.phase is Finished,
    ensures
        s.step(now, observation) == (s, Err::<LocatorAction, LocatorError>(LocatorError::OutOfTurn)),
{
}

/// The windows are listed only when more than `SLOW_INTERVAL_MS` have
/// passed since the last listing, and only at the end of a fast path; the
/// listing is then dated `now`. So two listings lie more than one interval
/// apart.
pub proof fn law_windows_listed_once_per_interval(
    s: LocatorState,
    now: u64,
    observation: Observation,
)
    requires
        s.step(now, observation).1 == Ok::<LocatorAction, LocatorError>(LocatorAction::ListWindows),
    ensures
        s.phase == LocatorPhase::AwaitingFocus,
        observation is Focus,
        since(now, s.last_slow_at) > SLOW_INTERVAL_MS,
        s.step(now, observation).0.last_slow_at == now,
{
}

/// Within a tick every step brings the pause nearer: a step either ends the
/// tick (with a pause or with the search), or moves on to a later phase, or
/// leaves one window less to search. One tick is therefore one inspection
/// of the focus, at most one listing of the windows and at most one search
/// per listed window.
pub proof fn law_tick_makes_progress(s: LocatorState, now: u64, observation: Observation)
    requires
        s.expects(observation),
        s.phase != LocatorPhase::Created,
        s.phase != LocatorPhase::Sleeping,
    ensures
        ({
            let (next, action) = s.react(now, observation);
            ||| action is Sleep
            ||| action is Finish
            ||| phase_rank(next.phase) < phase_rank(s.phase)
            ||| phase_rank(next.phase) == phase_rank(s.phase) && next.pending.len()
                < s.pending.len()
        }),
{
}

/// A quiet observation never ends the search with a find: it asks for no
/// `Finish` with an element, and leaves no search in a found state that was
/// not in it before.
pub proof fn law_quiet_step_finds_nothing(s: LocatorState, now: u64, observation: Observation)
    requires
        is_quiet(observation, s.target_pid),
    ensures
        !(s.step(now, observation).1 matches Ok(LocatorAction::Finish(SearchOutcome::Found(_)))),
        s.step(now, observation).0.phase matches LocatorPhase::Finished(SearchOutcome::Found(_))
            ==> s.step(now, observation).0.phase == s.phase,
{
}

/// Where nothing ever matches, a search ends with `TimedOut` and with
/// nothing else, and not before a clock reading that lies the whole budget
/// behind the reading with which it began.
pub proof fn law_quiet_search_times_out(
    target_pid: u32,
    budget_ms: u64,
    trace: Seq<(u64, Observation)>,
)
    requires
        trace.len() > 0,
        trace[0].1 == (Observation::Begin { accessibility_ready: true }),
        forall|i: int| 0 <= i < trace.len() ==> is_quiet((#[trigger] trace[i]).1, target_pid),
    ensures
        ({
            let end = run(LocatorState::fresh(target_pid, budget_ms), trace);
            &&& end.phase != LocatorPhase::Created
            &&& end.started_at == trace[0].0
            &&& end.phase is Finished ==> {
                &&& end.phase == LocatorPhase::Finished(SearchOutcome::TimedOut)
                &&& exists|k: int|
                    0 <= k < trace.len() && since((#[trigger] trace[k]).0, trace[0].0)
                        >= budget_ms
            }
        }),
    decreases trace.len(),
{
    let fresh = LocatorState::fresh(target_pid, budget_ms);
    let (now, observation) = trace.last();
    if trace.len() == 1 {
        assert(trace.drop_last().len() == 0);
        assert(run(fresh, trace.drop_last()) == fresh);
        let end = run(fresh, trace);
        assert(end == fresh.step(now, observation).0);
        if end.phase is Finished {
            assert(since(trace[0].0, trace[0].0) >= budget_ms);
        }
    } else {
        let before = trace.drop_last();
        assert(before[0] == trace[0]);
        assert forall|i: int| 0 <= i < before.len() implies is_quiet(
            (#[trigger] before[i]).1,
            target_pid,
        ) by {
            assert(before[i] == trace[i]);
        }
        law_quiet_search_times_out(target_pid, budget_ms, before);
        let mid = run(fresh, before);
        let end = run(fresh, trace);
        assert(end == mid.step(now, observation).0);
        lemma_target_is_kept(fresh, before);
        assert(mid.target_pid == target_pid);
        assert(mid.budget_ms == budget_ms);
        if end.phase is Finished {
            if mid.phase is Finished {
                let k = choose|k: int|
                    0 <= k < before.len() && since((#[trigger] before[k]).0, before[0].0)
                        >= budget_ms;
                assert(trace[k] == before[k]);
            } else {
                assert(since(trace[trace.len() - 1].0, trace[0].0) >= budget_ms);
            }
        }
    }
}

/// A search keeps its target and its budget.
proof fn lemma_target_is_kept(start: LocatorState, trace: Seq<(u64, Observation)>)
    ensures
        run(start, trace).target_pid == start.target_pid,
        run(start, trace).budget_ms == start.budget_ms,
    decreases trace.len(),
{
    if trace.len() > 0 {
        lemma_target_is_kept(start, trace.drop_last());
    }
}

/// No search goes on for ever. On a clock that does not go back, and with
/// pauses of one tick at least, the pause before the last begins within the
/// budget: a search makes `budget / tick + 1` pauses at most.
pub proof fn law_search_ends_within_budget(
    target_pid: u32,
    budget_ms: u64,
    trace: Seq<(u64, Observation)>,
)
    requires
        trace.len() > 0,
        trace[0].1 == (Observation::Begin { accessibility_ready: true }),
        paced(trace),
    ensures
        ({
            let count = pauses(LocatorState::fresh(target_pid, budget_ms), trace);
            count == 0 || (count - 1) * FAST_TICK_MS < budget_ms
        }),
{
    lemma_pauses_are_paid_for(target_pid, budget_ms, trace);
}

/// What [`law_search_ends_within_budget`] rests on: while a search is under
/// way, its pauses fit into the time that has passed, and that time was
/// within the budget when the last tick began.
proof fn lemma_pauses_are_paid_for(
    target_pid: u32,
    budget_ms: u64,
    trace: Seq<(u64, Observation)>,
)
    requires
        trace.len() > 0,
        trace[0].1 == (Observation::Begin { accessibility_ready: true }),
        paced(trace),
    ensures
        ({
            let fresh = LocatorState::fresh(target_pid, budget_ms);
            let end = run(fresh, trace);
            let count = pauses(fresh, trace);
            &&& end.phase != LocatorPhase::Created
            &&& end.started_at == trace[0].0
            &&& end.budget_ms == budget_ms
            &&& count == 0 || (count - 1) * FAST_TICK_MS < budget_ms
            &&& !(end.phase is Finished) ==> count * FAST_TICK_MS <= trace.last().0 - trace[0].0
                && count * FAST_TICK_MS < budget_ms
        }),
    decreases trace.len(),
{
    let fresh = LocatorState::fresh(target_pid, budget_ms);
    let (now, observation) = trace.last();
    let before = trace.drop_last();
    assert(run(fresh, trace) == run(fresh, before).step(now, observation).0);
    if trace.len() == 1 {
        assert(before.len() == 0);
        assert(run(fresh, before) == fresh);
        assert(pauses(fresh, before) == 0);
    } else {
        assert(before[0] == trace[0]);
        assert(before.last() == trace[trace.len() - 2]);
        assert(paced(before)) by {
            assert forall|i: int, j: int| 0 <= i <= j < before.len() implies (#[trigger] before[i]).0
                <= (#[trigger] before[j]).0 by {
                assert(before[i] == trace[i]);
                assert(before[j] == trace[j]);
            }
            assert forall|i: int|
                0 < i < before.len() && (#[trigger] before[i]).1
                    == Observation::Slept implies before[i].0 - before[i - 1].0
                >= FAST_TICK_MS by {
                assert(before[i] == trace[i]);
                assert(before[i - 1] == trace[i - 1]);
            }
        }
        lemma_pauses_are_paid_for(target_pid, budget_ms, before);
        assert(trace[0].0 <= trace[trace.len() - 2].0);
        assert(trace[trace.len() - 2].0 <= trace[trace.len() - 1].0);
        if observation == Observation::Slept {
            assert(trace[trace.len() - 1].0 - trace[trace.len() - 2].0 >= FAST_TICK_MS);
        }
    }
}

} // verus!
