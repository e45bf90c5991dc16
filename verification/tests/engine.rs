use rusty_league::credentials::Credentials;
use rusty_league::engine::{
    launch_and_login, Attempt, AttemptAction, AttemptEvent, Completion, EngineError,
    LoginAutomationEngine, Phase,
};
use rusty_league::injector::{injection_plan, InputStep, SpecialKey};
use rusty_league::launcher::LaunchError;
use rusty_league::locator::{
    ElementHandle, Locator, LocatorAction, LocatorEvent, SearchOutcome, SEARCH_BUDGET_MS,
};

fn creds(username: &str, password: &str) -> Credentials {
    Credentials { username: username.to_string(), password: password.to_string() }
}

fn show(plan: &[InputStep]) -> Vec<String> {
    plan.iter()
        .map(|step| match step {
            InputStep::Focus(h) => format!("focus {}", h.id),
            InputStep::Wait { ms } => format!("wait {}", ms),
            InputStep::Text(t) => format!("text {}", t),
            InputStep::Key(SpecialKey::Tab) => "Tab".to_string(),
            InputStep::Key(SpecialKey::Enter) => "Enter".to_string(),
        })
        .collect()
}

fn started(path: &str) -> Attempt {
    let (attempt, action) =
        launch_and_login("alice".to_string(), "secret1".to_string(), path.to_string());
    assert!(matches!(action, AttemptAction::Spawn(_)));
    attempt
}

fn expect_inject(action: Result<AttemptAction, EngineError>) -> Vec<String> {
    match action {
        Ok(AttemptAction::Inject(plan)) => show(&plan),
        other => panic!("expected an injection, got {:?}", other),
    }
}

#[test]
fn plan_with_target_focuses_then_types() {
    let plan = injection_plan(Some(ElementHandle { id: 9 }), &creds("alice", "secret1"));
    assert_eq!(
        show(&plan),
        vec![
            "focus 9", "wait 500", "text alice", "wait 100", "Tab", "wait 100", "text secret1",
            "wait 100", "Enter"
        ]
    );
}

#[test]
fn blind_plan_has_no_focus_and_a_long_wait() {
    let plan = injection_plan(None, &creds("alice", "secret1"));
    assert_eq!(
        show(&plan),
        vec![
            "wait 5000", "text alice", "wait 100", "Tab", "wait 100", "text secret1", "wait 100",
            "Enter"
        ]
    );
}

#[test]
fn plan_types_empty_credentials_as_they_are() {
    let plan = injection_plan(None, &creds("", ""));
    assert_eq!(
        show(&plan),
        vec!["wait 5000", "text ", "wait 100", "Tab", "wait 100", "text ", "wait 100", "Enter"]
    );
}

#[test]
fn new_attempt_is_idle() {
    let attempt = Attempt::new(creds("alice", "secret1"), "C:\\Game\\Client.exe".to_string());
    assert_eq!(attempt.phase(), Phase::Idle);
    assert_eq!(attempt.pid(), None);
    assert_eq!(attempt.outcome(), None);
    assert_eq!(attempt.completion(), None);
    assert!(!attempt.in_flight());
}

#[test]
fn start_asks_for_the_spawn() {
    let mut engine = LoginAutomationEngine::new();
    let mut attempt = Attempt::new(creds("alice", "secret1"), "C:\\Game\\Client.exe".to_string());
    match attempt.advance(&mut engine, AttemptEvent::Start) {
        Ok(AttemptAction::Spawn(spec)) => {
            assert_eq!(spec.executable_path, "C:\\Game\\Client.exe");
            assert_eq!(
                spec.arguments,
                vec!["--launch-product=league_of_legends", "--launch-patchline=live"]
            );
        }
        other => panic!("expected a spawn, got {:?}", other),
    }
    assert_eq!(attempt.phase(), Phase::Launching);
}

#[test]
fn launch_and_login_is_new_then_start() {
    let (attempt, action) =
        launch_and_login("alice".to_string(), "secret1".to_string(), String::new());
    assert_eq!(attempt.phase(), Phase::Launching);
    match action {
        AttemptAction::Spawn(spec) => {
            assert_eq!(spec.executable_path, "E:\\Riot Games\\Riot Client\\RiotClientServices.exe");
            assert_eq!(spec.arguments.len(), 2);
        }
        other => panic!("expected a spawn, got {:?}", other),
    }
}

#[test]
fn spawn_failure_ends_the_attempt_without_a_search() {
    let mut engine = LoginAutomationEngine::new();
    let mut attempt = started("Z:\\missing.exe");
    assert!(matches!(
        attempt.advance(&mut engine, AttemptEvent::SpawnFailed),
        Ok(AttemptAction::Fail(LaunchError::SpawnFailed))
    ));
    assert_eq!(attempt.phase(), Phase::LaunchFailed);
    assert_eq!(attempt.completion(), Some(Completion::LaunchFailed(LaunchError::SpawnFailed)));
    assert!(!attempt.in_flight());
    for event in [
        AttemptEvent::Start,
        AttemptEvent::Spawned { pid: 1 },
        AttemptEvent::Located(SearchOutcome::TimedOut),
        AttemptEvent::Proceed,
        AttemptEvent::Injected,
    ] {
        assert!(matches!(attempt.advance(&mut engine, event), Err(EngineError::OutOfTurn)));
    }
    assert_eq!(attempt.phase(), Phase::LaunchFailed);
    assert!(!engine.is_in_flight(1));
}

#[test]
fn found_field_leads_to_an_aimed_injection() {
    let mut engine = LoginAutomationEngine::new();
    let mut attempt = started("C:\\Game\\Client.exe");
    assert!(matches!(
        attempt.advance(&mut engine, AttemptEvent::Spawned { pid: 4242 }),
        Ok(AttemptAction::Locate { target_pid: 4242, budget_ms: 60_000 })
    ));
    assert_eq!(attempt.phase(), Phase::Searching);
    assert_eq!(attempt.pid(), Some(4242));
    assert!(attempt.in_flight());
    assert!(engine.is_in_flight(4242));
    let found = SearchOutcome::Found(ElementHandle { id: 7 });
    assert!(matches!(
        attempt.advance(&mut engine, AttemptEvent::Located(found)),
        Ok(AttemptAction::Proceed)
    ));
    assert_eq!(attempt.phase(), Phase::Found);
    assert_eq!(attempt.outcome(), Some(found));
    assert_eq!(
        expect_inject(attempt.advance(&mut engine, AttemptEvent::Proceed)),
        vec![
            "focus 7", "wait 500", "text alice", "wait 100", "Tab", "wait 100", "text secret1",
            "wait 100", "Enter"
        ]
    );
    assert_eq!(attempt.phase(), Phase::Injecting);
    assert!(engine.is_in_flight(4242));
    assert!(matches!(
        attempt.advance(&mut engine, AttemptEvent::Injected),
        Ok(AttemptAction::Complete(Completion::Success))
    ));
    assert_eq!(attempt.phase(), Phase::Completed);
    assert_eq!(attempt.completion(), Some(Completion::Success));
    assert!(!attempt.in_flight());
    assert!(!engine.is_in_flight(4242));
}

#[test]
fn client_that_never_shows_a_field_gets_a_blind_injection() {
    let mut engine = LoginAutomationEngine::new();
    let mut attempt = started("C:\\Game\\Client.exe");
    let (pid, budget) = match attempt.advance(&mut engine, AttemptEvent::Spawned { pid: 4242 }) {
        Ok(AttemptAction::Locate { target_pid, budget_ms }) => (target_pid, budget_ms),
        other => panic!("expected a search, got {:?}", other),
    };
    assert_eq!((pid, budget), (4242, SEARCH_BUDGET_MS));

    // sixty seconds in which nothing matches
    let mut locator = Locator::new(pid, budget);
    let mut now: u64 = 0;
    let mut action = locator.step(now, LocatorEvent::Begin { accessibility_ready: true }).unwrap();
    let outcome = loop {
        action = match action {
            LocatorAction::InspectFocus => locator.step(now, LocatorEvent::Focus(None)),
            LocatorAction::ListWindows => locator.step(now, LocatorEvent::Windows(Vec::new())),
            LocatorAction::SearchWindow { .. } => {
                locator.step(now, LocatorEvent::WindowSearched(None))
            }
            LocatorAction::Sleep { ms } => {
                now += ms;
                locator.step(now, LocatorEvent::Slept)
            }
            LocatorAction::Finish(outcome) => break outcome,
        }
        .unwrap();
    };
    assert_eq!(outcome, SearchOutcome::TimedOut);
    assert_eq!(now, 60_000);

    assert!(matches!(
        attempt.advance(&mut engine, AttemptEvent::Located(outcome)),
        Ok(AttemptAction::Proceed)
    ));
    assert_eq!(attempt.phase(), Phase::TimedOut);
    assert_eq!(
        expect_inject(attempt.advance(&mut engine, AttemptEvent::Proceed)),
        vec![
            "wait 5000", "text alice", "wait 100", "Tab", "wait 100", "text secret1", "wait 100",
            "Enter"
        ]
    );
    assert_eq!(attempt.phase(), Phase::InjectingBlind);
    assert!(matches!(
        attempt.advance(&mut engine, AttemptEvent::Injected),
        Ok(AttemptAction::Complete(Completion::TimedOut))
    ));
    assert_eq!(attempt.completion(), Some(Completion::TimedOut));
    assert!(!engine.is_in_flight(4242));
}

#[test]
fn second_attempt_on_the_same_process_is_refused() {
    let mut engine = LoginAutomationEngine::new();
    let mut first = started("C:\\Game\\Client.exe");
    let mut second = started("C:\\Game\\Client.exe");
    assert!(matches!(
        first.advance(&mut engine, AttemptEvent::Spawned { pid: 4242 }),
        Ok(AttemptAction::Locate { .. })
    ));
    assert!(matches!(
        second.advance(&mut engine, AttemptEvent::Spawned { pid: 4242 }),
        Ok(AttemptAction::Fail(LaunchError::AlreadyInFlight))
    ));
    assert_eq!(second.phase(), Phase::LaunchFailed);
    assert_eq!(second.completion(), Some(Completion::LaunchFailed(LaunchError::AlreadyInFlight)));
    assert!(!second.in_flight());
    assert!(first.in_flight());
    assert!(engine.is_in_flight(4242));

    // once the first is through, the process is free again
    first.advance(&mut engine, AttemptEvent::Located(SearchOutcome::TimedOut)).unwrap();
    first.advance(&mut engine, AttemptEvent::Proceed).unwrap();
    first.advance(&mut engine, AttemptEvent::Injected).unwrap();
    assert!(!engine.is_in_flight(4242));
    let mut third = started("C:\\Game\\Client.exe");
    assert!(matches!(
        third.advance(&mut engine, AttemptEvent::Spawned { pid: 4242 }),
        Ok(AttemptAction::Locate { .. })
    ));
}

#[test]
fn attempts_on_different_processes_run_side_by_side() {
    let mut engine = LoginAutomationEngine::new();
    let mut a = started("a.exe");
    let mut b = started("b.exe");
    assert!(matches!(
        a.advance(&mut engine, AttemptEvent::Spawned { pid: 1 }),
        Ok(AttemptAction::Locate { target_pid: 1, .. })
    ));
    assert!(matches!(
        b.advance(&mut engine, AttemptEvent::Spawned { pid: 2 }),
        Ok(AttemptAction::Locate { target_pid: 2, .. })
    ));
    assert!(engine.is_in_flight(1) && engine.is_in_flight(2));
    a.advance(&mut engine, AttemptEvent::Located(SearchOutcome::TimedOut)).unwrap();
    a.advance(&mut engine, AttemptEvent::Proceed).unwrap();
    a.advance(&mut engine, AttemptEvent::Injected).unwrap();
    assert!(!engine.is_in_flight(1));
    assert!(engine.is_in_flight(2));
}

#[test]
fn events_out_of_turn_change_nothing() {
    let mut engine = LoginAutomationEngine::new();
    let mut attempt = Attempt::new(creds("a", "b"), String::new());
    for event in [
        AttemptEvent::Spawned { pid: 3 },
        AttemptEvent::SpawnFailed,
        AttemptEvent::Located(SearchOutcome::TimedOut),
        AttemptEvent::Proceed,
        AttemptEvent::Injected,
    ] {
        assert!(matches!(attempt.advance(&mut engine, event), Err(EngineError::OutOfTurn)));
        assert_eq!(attempt.phase(), Phase::Idle);
    }
    assert!(!engine.is_in_flight(3));
    let mut attempt = started("x.exe");
    attempt.advance(&mut engine, AttemptEvent::Spawned { pid: 3 }).unwrap();
    for event in [AttemptEvent::Start, AttemptEvent::Proceed, AttemptEvent::Injected] {
        assert!(matches!(attempt.advance(&mut engine, event), Err(EngineError::OutOfTurn)));
        assert_eq!(attempt.phase(), Phase::Searching);
    }
    assert!(engine.is_in_flight(3));
}

#[test]
fn an_attempt_injects_once() {
    let mut engine = LoginAutomationEngine::new();
    let mut attempt = started("x.exe");
    attempt.advance(&mut engine, AttemptEvent::Spawned { pid: 3 }).unwrap();
    attempt.advance(&mut engine, AttemptEvent::Located(SearchOutcome::TimedOut)).unwrap();
    let mut injections = 0;
    for event in [
        AttemptEvent::Proceed,
        AttemptEvent::Proceed,
        AttemptEvent::Located(SearchOutcome::TimedOut),
        AttemptEvent::Proceed,
        AttemptEvent::Injected,
        AttemptEvent::Proceed,
        AttemptEvent::Start,
        AttemptEvent::Proceed,
    ] {
        if let Ok(AttemptAction::Inject(_)) = attempt.advance(&mut engine, event) {
            injections += 1;
        }
    }
    assert_eq!(injections, 1);
    assert_eq!(attempt.phase(), Phase::Completed);
}

#[test]
fn register_enters_and_releases() {
    let mut engine = LoginAutomationEngine::new();
    assert!(!engine.is_in_flight(5));
    assert!(engine.register(5));
    assert!(engine.is_in_flight(5));
    assert!(!engine.register(5));
    assert!(engine.register(6));
    engine.release(5);
    assert!(!engine.is_in_flight(5));
    assert!(engine.is_in_flight(6));
    engine.release(5);
    assert!(!engine.is_in_flight(5));
    assert!(engine.register(5));
}
