use rusty_league::locator::{
    candidate_windows, focus_match, has_client_window_ancestor, window_is_candidate,
    ElementHandle, FocusRule, FocusedElement, HorizontalExtent, Locator, LocatorAction,
    LocatorError, LocatorEvent, LocatorPhase, SearchOutcome, WindowSnapshot, FAST_TICK_MS,
    SEARCH_BUDGET_MS, SLOW_INTERVAL_MS, WINDOW_SEARCH_TIMEOUT_MS,
};

const PID: u32 = 4242;

fn handle(id: u64) -> ElementHandle {
    ElementHandle { id }
}

fn plain(id: u64) -> FocusedElement {
    FocusedElement {
        handle: handle(id),
        automation_id: Some("other".to_string()),
        name: Some("Other".to_string()),
        is_edit: false,
        process_id: Some(1),
        ancestor_names: Vec::new(),
    }
}

fn window(id: u64, left: i32, right: i32) -> WindowSnapshot {
    WindowSnapshot { handle: handle(id), extent: Some(HorizontalExtent { left, right }) }
}

fn begun(now: u64) -> Locator {
    let mut locator = Locator::new(PID, SEARCH_BUDGET_MS);
    assert_eq!(
        locator.step(now, LocatorEvent::Begin { accessibility_ready: true }),
        Ok(LocatorAction::InspectFocus)
    );
    locator
}

const SLEEP: Result<LocatorAction, LocatorError> = Ok(LocatorAction::Sleep { ms: 50 });

#[test]
fn reference_cadence() {
    assert_eq!(FAST_TICK_MS, 50);
    assert_eq!(SLOW_INTERVAL_MS, 1000);
    assert_eq!(SEARCH_BUDGET_MS, 60_000);
    assert_eq!(WINDOW_SEARCH_TIMEOUT_MS, 50);
}

#[test]
fn automation_id_wins_over_everything() {
    let mut e = plain(1);
    e.automation_id = Some("username".to_string());
    e.name = Some("USERNAME".to_string());
    e.is_edit = true;
    e.process_id = Some(PID);
    assert_eq!(focus_match(&e, PID), Some(FocusRule::AutomationId));
}

#[test]
fn automation_id_is_compared_exactly() {
    let mut e = plain(1);
    e.automation_id = Some("Username".to_string());
    assert_eq!(focus_match(&e, PID), None);
    e.automation_id = Some("username ".to_string());
    assert_eq!(focus_match(&e, PID), None);
    e.automation_id = None;
    assert_eq!(focus_match(&e, PID), None);
}

#[test]
fn name_is_the_second_criterion() {
    let mut e = plain(1);
    e.name = Some("USERNAME".to_string());
    e.is_edit = true;
    e.process_id = Some(PID);
    assert_eq!(focus_match(&e, PID), Some(FocusRule::Name));
    e.name = Some("username".to_string());
    assert_eq!(focus_match(&e, PID), Some(FocusRule::EditOfProcess));
}

#[test]
fn edit_of_the_target_process_matches() {
    let mut e = plain(1);
    e.is_edit = true;
    e.process_id = Some(PID);
    assert_eq!(focus_match(&e, PID), Some(FocusRule::EditOfProcess));
    e.is_edit = false;
    assert_eq!(focus_match(&e, PID), None);
    e.is_edit = true;
    e.process_id = Some(PID + 1);
    assert_eq!(focus_match(&e, PID), None);
    e.process_id = None;
    assert_eq!(focus_match(&e, PID), None);
}

#[test]
fn edit_below_a_client_window_matches() {
    let mut e = plain(1);
    e.is_edit = true;
    e.ancestor_names = vec![None, Some("Pane".to_string()), Some("The Riot Client!".to_string())];
    assert_eq!(focus_match(&e, PID), Some(FocusRule::EditUnderClientWindow));
    e.is_edit = false;
    assert_eq!(focus_match(&e, PID), None);
}

#[test]
fn only_six_ancestors_are_looked_at() {
    let mut names: Vec<Option<String>> = vec![Some("x".to_string()); 6];
    names.push(Some("Riot Client".to_string()));
    assert!(!has_client_window_ancestor(&names));
    names[5] = Some("Riot Client".to_string());
    assert!(has_client_window_ancestor(&names));
    assert!(!has_client_window_ancestor(&Vec::new()));
    assert!(!has_client_window_ancestor(&vec![Some("riot client".to_string())]));
    assert!(!has_client_window_ancestor(&vec![None, None]));
}

#[test]
fn narrow_windows_are_skipped() {
    assert!(!window_is_candidate(&window(1, 0, 199)));
    assert!(window_is_candidate(&window(1, 0, 200)));
    assert!(window_is_candidate(&window(1, -100, 100)));
    assert!(!window_is_candidate(&window(1, 100, 0)));
    assert!(window_is_candidate(&WindowSnapshot { handle: handle(1), extent: None }));
}

#[test]
fn window_width_does_not_overflow() {
    assert!(window_is_candidate(&window(1, i32::MIN, i32::MAX)));
    assert!(!window_is_candidate(&window(1, i32::MAX, i32::MIN)));
}

#[test]
fn candidate_windows_keep_their_order() {
    let windows = vec![
        window(1, 0, 100),
        window(2, 0, 800),
        WindowSnapshot { handle: handle(3), extent: None },
        window(4, 10, 50),
        window(5, 0, 200),
    ];
    assert_eq!(candidate_windows(&windows), vec![handle(2), handle(3), handle(5)]);
    assert_eq!(candidate_windows(&Vec::new()), Vec::new());
}

#[test]
fn new_locator_is_created() {
    let locator = Locator::new(PID, 1234);
    assert_eq!(locator.phase(), LocatorPhase::Created);
    assert_eq!(locator.target_pid(), PID);
    assert_eq!(locator.budget_ms(), 1234);
    assert_eq!(locator.outcome(), None);
}

#[test]
fn missing_accessibility_times_out_at_once() {
    let mut locator = Locator::new(PID, SEARCH_BUDGET_MS);
    assert_eq!(
        locator.step(0, LocatorEvent::Begin { accessibility_ready: false }),
        Ok(LocatorAction::Finish(SearchOutcome::TimedOut))
    );
    assert_eq!(locator.outcome(), Some(SearchOutcome::TimedOut));
    assert_eq!(locator.step(1, LocatorEvent::Slept), Err(LocatorError::OutOfTurn));
}

#[test]
fn zero_budget_times_out_at_once() {
    let mut locator = Locator::new(PID, 0);
    assert_eq!(
        locator.step(5, LocatorEvent::Begin { accessibility_ready: true }),
        Ok(LocatorAction::Finish(SearchOutcome::TimedOut))
    );
}

#[test]
fn focused_username_field_is_found_on_the_first_tick() {
    let mut locator = begun(1000);
    let mut e = plain(77);
    e.automation_id = Some("username".to_string());
    assert_eq!(
        locator.step(1000, LocatorEvent::Focus(Some(e))),
        Ok(LocatorAction::Finish(SearchOutcome::Found(handle(77))))
    );
    assert_eq!(locator.phase(), LocatorPhase::Finished(SearchOutcome::Found(handle(77))));
    assert_eq!(locator.outcome(), Some(SearchOutcome::Found(handle(77))));
}

#[test]
fn slow_path_waits_for_more_than_the_interval() {
    let mut locator = begun(0);
    assert_eq!(locator.step(0, LocatorEvent::Focus(None)), SLEEP);
    assert_eq!(locator.step(1000, LocatorEvent::Slept), Ok(LocatorAction::InspectFocus));
    assert_eq!(locator.step(1000, LocatorEvent::Focus(Some(plain(1)))), SLEEP);
    assert_eq!(locator.step(1001, LocatorEvent::Slept), Ok(LocatorAction::InspectFocus));
    assert_eq!(locator.step(1001, LocatorEvent::Focus(None)), Ok(LocatorAction::ListWindows));
    assert_eq!(locator.phase(), LocatorPhase::AwaitingWindows);
    assert_eq!(locator.step(1001, LocatorEvent::Windows(Vec::new())), SLEEP);
    // the next listing is due more than one interval after the last
    assert_eq!(locator.step(2001, LocatorEvent::Slept), Ok(LocatorAction::InspectFocus));
    assert_eq!(locator.step(2001, LocatorEvent::Focus(None)), SLEEP);
    assert_eq!(locator.step(2002, LocatorEvent::Slept), Ok(LocatorAction::InspectFocus));
    assert_eq!(locator.step(2002, LocatorEvent::Focus(None)), Ok(LocatorAction::ListWindows));
}

#[test]
fn windows_are_searched_in_order_until_one_has_an_edit() {
    let mut locator = begun(0);
    assert_eq!(locator.step(0, LocatorEvent::Focus(None)), SLEEP);
    assert_eq!(locator.step(1500, LocatorEvent::Slept), Ok(LocatorAction::InspectFocus));
    assert_eq!(locator.step(1500, LocatorEvent::Focus(None)), Ok(LocatorAction::ListWindows));
    let windows = vec![window(1, 0, 50), window(2, 0, 900), window(3, 0, 900), window(4, 0, 900)];
    assert_eq!(
        locator.step(1500, LocatorEvent::Windows(windows)),
        Ok(LocatorAction::SearchWindow { window: handle(2), timeout_ms: 50 })
    );
    assert_eq!(locator.phase(), LocatorPhase::SearchingWindow);
    assert_eq!(
        locator.step(1550, LocatorEvent::WindowSearched(None)),
        Ok(LocatorAction::SearchWindow { window: handle(3), timeout_ms: 50 })
    );
    assert_eq!(
        locator.step(1600, LocatorEvent::WindowSearched(Some(handle(30)))),
        Ok(LocatorAction::Finish(SearchOutcome::Found(handle(30))))
    );
    assert_eq!(locator.outcome(), Some(SearchOutcome::Found(handle(30))));
}

#[test]
fn windows_without_an_edit_end_the_tick() {
    let mut locator = begun(0);
    assert_eq!(locator.step(0, LocatorEvent::Focus(None)), SLEEP);
    assert_eq!(locator.step(1500, LocatorEvent::Slept), Ok(LocatorAction::InspectFocus));
    assert_eq!(locator.step(1500, LocatorEvent::Focus(None)), Ok(LocatorAction::ListWindows));
    assert_eq!(
        locator.step(1500, LocatorEvent::Windows(vec![window(2, 0, 900)])),
        Ok(LocatorAction::SearchWindow { window: handle(2), timeout_ms: 50 })
    );
    assert_eq!(locator.step(1550, LocatorEvent::WindowSearched(None)), SLEEP);
    assert_eq!(locator.phase(), LocatorPhase::Sleeping);
}

#[test]
fn quiet_search_times_out_exactly_when_the_budget_is_spent() {
    let mut locator = begun(100);
    let mut now: u64 = 100;
    let mut ticks = 0;
    loop {
        let after_focus = locator.step(now, LocatorEvent::Focus(Some(plain(1)))).unwrap();
        if after_focus == LocatorAction::ListWindows {
            assert_eq!(locator.step(now, LocatorEvent::Windows(Vec::new())), SLEEP);
        } else {
            assert_eq!(after_focus, LocatorAction::Sleep { ms: 50 });
        }
        now += 50;
        ticks += 1;
        match locator.step(now, LocatorEvent::Slept).unwrap() {
            LocatorAction::InspectFocus => assert!(now - 100 < SEARCH_BUDGET_MS),
            LocatorAction::Finish(outcome) => {
                assert_eq!(outcome, SearchOutcome::TimedOut);
                break;
            }
            other => panic!("unexpected action {:?}", other),
        }
    }
    assert_eq!(now - 100, SEARCH_BUDGET_MS);
    assert_eq!(ticks, 1200);
    assert_eq!(locator.outcome(), Some(SearchOutcome::TimedOut));
}

#[test]
fn one_tick_before_the_budget_the_search_goes_on() {
    let mut locator = begun(0);
    assert_eq!(locator.step(0, LocatorEvent::Focus(None)), SLEEP);
    assert_eq!(locator.step(59_999, LocatorEvent::Slept), Ok(LocatorAction::InspectFocus));
    assert_eq!(locator.step(59_999, LocatorEvent::Focus(None)), Ok(LocatorAction::ListWindows));
    assert_eq!(locator.step(59_999, LocatorEvent::Windows(Vec::new())), SLEEP);
    assert_eq!(
        locator.step(60_000, LocatorEvent::Slept),
        Ok(LocatorAction::Finish(SearchOutcome::TimedOut))
    );
}

#[test]
fn a_clock_that_goes_back_counts_as_no_time() {
    let mut locator = begun(5000);
    assert_eq!(locator.step(10, LocatorEvent::Focus(None)), SLEEP);
    assert_eq!(locator.step(0, LocatorEvent::Slept), Ok(LocatorAction::InspectFocus));
}

#[test]
fn events_out_of_turn_are_refused_and_change_nothing() {
    let mut locator = Locator::new(PID, SEARCH_BUDGET_MS);
    assert_eq!(locator.step(0, LocatorEvent::Slept), Err(LocatorError::OutOfTurn));
    assert_eq!(locator.step(0, LocatorEvent::Focus(None)), Err(LocatorError::OutOfTurn));
    assert_eq!(locator.phase(), LocatorPhase::Created);
    let mut locator = begun(0);
    assert_eq!(
        locator.step(0, LocatorEvent::Begin { accessibility_ready: true }),
        Err(LocatorError::OutOfTurn)
    );
    assert_eq!(locator.step(0, LocatorEvent::Windows(Vec::new())), Err(LocatorError::OutOfTurn));
    assert_eq!(
        locator.step(0, LocatorEvent::WindowSearched(Some(handle(1)))),
        Err(LocatorError::OutOfTurn)
    );
    assert_eq!(locator.phase(), LocatorPhase::AwaitingFocus);
    assert_eq!(locator.outcome(), None);
}
