//! What holds of every login attempt, proved of the transition function of
//! the attempts.

use crate::engine::{
    AttemptActionView, AttemptEvent, AttemptState, Completion, EngineError, Phase,
};
use crate::injector::{injection_sequence, InputStepView, BLIND_SETTLE_MS};
use crate::launcher::LaunchError;
use crate::locator::SearchOutcome;
use vstd::prelude::*;

verus! {

/// How far an attempt has come: every step that is taken raises it.
pub open spec fn progress(phase: Phase) -> int {
    match phase {
        Phase::Idle => 0,
        Phase::Launching => 1,
        Phase::Searching => 2,
        Phase::Found => 3,
        Phase::TimedOut => 3,
        Phase::Injecting => 4,
        Phase::InjectingBlind => 4,
        Phase::Completed => 5,
        Phase::LaunchFailed => 5,
    }
}

/// What an attempt holds in each phase once it has come there from
/// [`AttemptState::initial`]: the outcome of the search from the moment it
/// is over, the process while anything is under way, the reason of a failed
/// launch.
pub open spec fn coherent(s: AttemptState) -> bool {
    &&& s.in_flight() ==> s.pid is Some
    &&& s.phase == Phase::Found || s.phase == Phase::Injecting ==> s.outcome is Some
        && s.outcome->0 is Found
    &&& s.phase == Phase::TimedOut || s.phase == Phase::InjectingBlind ==> s.outcome == Some(
        SearchOutcome::TimedOut,
    )
    &&& s.phase == Phase::LaunchFailed ==> s.failure is Some
    &&& s.phase == Phase::Completed ==> s.outcome is Some
}

/// Number of injections that an attempt asks for while it takes `events`
/// one after the other.
pub open spec fn injections(s: AttemptState, registry: Set<u32>, events: Seq<AttemptEvent>) -> nat
    decreases events.len(),
{
    if events.len() == 0 {
        0
    } else {
        let (next, registry_next, answer) = s.step(registry, events.first());
        let here: nat = if answer matches Ok(AttemptActionView::Inject(_)) {
            1
        } else {
            0
        };
        here + injections(next, registry_next, events.drop_first())
    }
}

/// No two attempts that are under way have the same process, and the
/// register holds the process of each.
pub open spec fn one_attempt_per_process(attempts: Seq<AttemptState>, registry: Set<u32>) -> bool {
    &&& forall|i: int|
        0 <= i < attempts.len() && (#[trigger] attempts[i]).in_flight() ==> attempts[i].pid is Some
            && registry.contains(attempts[i].pid->0)
    &&& forall|i: int, j: int|
        0 <= i < j < attempts.len() && (#[trigger] attempts[i]).in_flight()
            && (#[trigger] attempts[j]).in_flight() ==> attempts[i].pid != attempts[j].pid
}

/// A launch that the operating system refuses ends the attempt with
/// `SpawnFailed`: no search is asked for, and nothing is entered in the
/// register.
pub proof fn law_spawn_failure_ends_attempt(s: AttemptState, registry: Set<u32>)
    requires
        s.phase == Phase::Launching,
    ensures
        ({
            let (next, registry_next, answer) = s.step(registry, AttemptEvent::SpawnFailed);
            &&& answer == Ok::<AttemptActionView, EngineError>(
                AttemptActionView::Fail(LaunchError::SpawnFailed),
            )
            &&& next.phase == Phase::LaunchFailed
            &&& next.completion() == Some(Completion::LaunchFailed(LaunchError::SpawnFailed))
            &&& !next.in_flight()
            &&& registry_next == registry
        }),
{
}

/// An attempt that is over takes no event: after a failed launch, and after
/// the last keystroke, nothing is asked for any more.
pub proof fn law_ended_attempt_is_final(s: AttemptState, registry: Set<u32>, event: AttemptEvent)
    requires
        s.phase == Phase::LaunchFailed || s.phase == Phase::Completed,
    ensures
        s.step(registry, event) == (
            s,
            registry,
            Err::<AttemptActionView, EngineError>(EngineError::OutOfTurn),
        ),
{
}

/// Every step that is taken brings the attempt forward: no phase is entered
/// twice.
pub proof fn law_attempt_moves_forward(s: AttemptState, registry: Set<u32>, event: AttemptEvent)
    requires
        s.expects(event),
    ensures
        progress(s.step(registry, event).0.phase) > progress(s.phase),
{
}

/// An attempt that started from its initial state holds in every phase what
/// the phase promises.
pub proof fn law_attempt_stays_coherent(s: AttemptState, registry: Set<u32>, event: AttemptEvent)
    requires
        coherent(s),
    ensures
        coherent(s.step(registry, event).0),
{
}

/// The initial state is coherent.
pub proof fn law_initial_attempt_is_coherent(
    username: Seq<char>,
    password: Seq<char>,
    configured_path: Seq<char>,
)
    ensures
        coherent(AttemptState::initial(username, password, configured_path)),
{
}

/// An injection is asked for only when the search is over, and with what
/// the search gave: the element where one was found, none after a timeout.
pub proof fn law_injection_follows_search(s: AttemptState, registry: Set<u32>, event: AttemptEvent)
    requires
        coherent(s),
        s.step(registry, event).2 matches Ok(AttemptActionView::Inject(_)),
    ensures
        s.outcome is Some,
        event == AttemptEvent::Proceed,
        s.step(registry, event).2 == Ok::<AttemptActionView, EngineError>(
            AttemptActionView::Inject(
                injection_sequence(s.target(), s.credentials.username, s.credentials.password),
            ),
        ),
        s.outcome == Some(SearchOutcome::TimedOut) ==> s.step(registry, event).0.phase
            == Phase::InjectingBlind,
        s.outcome != Some(SearchOutcome::TimedOut) ==> s.step(registry, event).0.phase
            == Phase::Injecting,
{
}

/// Whatever events arrive, an attempt asks for one injection at most.
pub proof fn law_at_most_one_injection(
    s: AttemptState,
    registry: Set<u32>,
    events: Seq<AttemptEvent>,
)
    ensures
        injections(s, registry, events) <= 1,
        progress(s.phase) >= progress(Phase::Injecting) ==> injections(s, registry, events) == 0,
    decreases events.len(),
{
    if events.len() > 0 {
        let (next, registry_next, answer) = s.step(registry, events.first());
        law_at_most_one_injection(next, registry_next, events.drop_first());
    }
}

/// After a timeout the injection makes no focus request and starts with the
/// long pause; what is typed is what is typed after a find.
pub proof fn law_blind_injection_differs_in_its_start(
    target: crate::locator::ElementHandle,
    username: Seq<char>,
    password: Seq<char>,
)
    ensures
        injection_sequence(None, username, password).first() == (InputStepView::Wait {
            ms: BLIND_SETTLE_MS,
        }),
        injection_sequence(None, username, password).len() == 8,
        injection_sequence(Some(target), username, password).len() == 9,
        injection_sequence(None, username, password).skip(1) == injection_sequence(
            Some(target),
            username,
            password,
        ).skip(2),
        forall|i: int|
            0 <= i < 8 ==> !(#[trigger] injection_sequence(None, username, password)[i] is Focus),
{
    let blind = injection_sequence(None, username, password);
    let aimed = injection_sequence(Some(target), username, password);
    assert(blind.skip(1) =~= aimed.skip(2));
}

/// A second attempt on a process on which one is under way is refused at
/// the launch: it ends with `AlreadyInFlight`, asks for no search, and
/// leaves the register as it was.
pub proof fn law_second_attempt_is_refused(s: AttemptState, registry: Set<u32>, pid: u32)
    requires
        s.phase == Phase::Launching,
        registry.contains(pid),
    ensures
        ({
            let (next, registry_next, answer) = s.step(registry, AttemptEvent::Spawned { pid });
            &&& answer == Ok::<AttemptActionView, EngineError>(
                AttemptActionView::Fail(LaunchError::AlreadyInFlight),
            )
            &&& next.phase == Phase::LaunchFailed
            &&& !next.in_flight()
            &&& registry_next == registry
        }),
{
}

/// Among attempts that share a register, a step of any one of them keeps
/// the others apart: at no time are two searches or injections under way
/// on the same process.
pub proof fn law_one_attempt_per_process(
    attempts: Seq<AttemptState>,
    registry: Set<u32>,
    which: int,
    event: AttemptEvent,
)
    requires
        one_attempt_per_process(attempts, registry),
        0 <= which < attempts.len(),
    ensures
        ({
            let (next, registry_next, _) = attempts[which].step(registry, event);
            one_attempt_per_process(attempts.update(which, next), registry_next)
        }),
{
    let (next, registry_next, _) = attempts[which].step(registry, event);
    let after = attempts.update(which, next);
    assert forall|i: int| 0 <= i < after.len() && (#[trigger] after[i]).in_flight() implies (
    after[i].pid is Some && registry_next.contains(after[i].pid->0)) by {
        if i != which {
            assert(after[i] == attempts[i]);
            if attempts[which].in_flight() {
                if i < which {
                    assert(attempts[i].pid != attempts[which].pid);
                } else {
                    assert(attempts[which].pid != attempts[i].pid);
                }
            }
        } else {
            assert(after[i] == next);
        }
    }
    assert forall|i: int, j: int|
        0 <= i < j < after.len() && (#[trigger] after[i]).in_flight()
            && (#[trigger] after[j]).in_flight() implies after[i].pid != after[j].pid by {
        if i != which && j != which {
            assert(after[i] == attempts[i]);
            assert(after[j] == attempts[j]);
        } else if i == which {
            assert(after[j] == attempts[j]);
            assert(attempts[j].in_flight());
        } else {
            assert(after[i] == attempts[i]);
            assert(attempts[i].in_flight());
        }
    }
}

} // verus!
