//! The keystrokes that log in.
//!
//! The client's form cannot be asked whether a keystroke arrived, so the
//! sequence is fixed: focus the field if one was found, let the client
//! settle, type the username, move on with Tab, type the password, submit
//! with Enter, with a short pause before each key.

use crate::credentials::Credentials;
use crate::locator::ElementHandle;
use vstd::prelude::*;

verus! {

/// Pause after the focus request when the login field was found.
pub const FOUND_SETTLE_MS: u64 = 500;

/// Pause before typing when no field was found and the keystrokes go to
/// whatever holds the focus.
pub const BLIND_SETTLE_MS: u64 = 5000;

/// Pause between two inputs.
pub const KEY_GAP_MS: u64 = 100;

/// A key that is pressed and released once.
#[derive(Clone, Copy, Debug, PartialEq, Eq, Structural)]
pub enum SpecialKey {
    Tab,
    Enter,
}

/// One step of an injection.
#[derive(Debug)]
pub enum InputStep {
    /// Ask for the keyboard focus on the element; a failure is ignored.
    Focus(ElementHandle),
    /// Pause.
    Wait { ms: u64 },
    /// Type the text.
    Text(String),
    /// Press and release the key.
    Key(SpecialKey),
}

/// An [`InputStep`] with its text as a sequence of characters.
pub enum InputStepView {
    Focus(ElementHandle),
    Wait { ms: u64 },
    Text(Seq<char>),
    Key(SpecialKey),
}

impl View for InputStep {
    type V = InputStepView;

    open spec fn view(&self) -> InputStepView {
        match self {
            InputStep::Focus(handle) => InputStepView::Focus(*handle),
            InputStep::Wait { ms } => InputStepView::Wait { ms: *ms },
            InputStep::Text(text) => InputStepView::Text(text@),
            InputStep::Key(key) => InputStepView::Key(*key),
        }
    }
}

/// The steps of `plan`, each by its view.
pub open spec fn steps_of(plan: Seq<InputStep>) -> Seq<InputStepView> {
    plan.map_values(|step: InputStep| step@)
}

/// The part of every injection that types: username, Tab, password, Enter,
/// with a pause before each but the first.
pub open spec fn typing_sequence(username: Seq<char>, password: Seq<char>) -> Seq<InputStepView> {
    seq![
        InputStepView::Text(username),
        InputStepView::Wait { ms: KEY_GAP_MS },
        InputStepView::Key(SpecialKey::Tab),
        InputStepView::Wait { ms: KEY_GAP_MS },
        InputStepView::Text(password),
        InputStepView::Wait { ms: KEY_GAP_MS },
        InputStepView::Key(SpecialKey::Enter),
    ]
}

/// The whole injection. With a target it starts with the focus request and
/// the short pause; without one it makes no focus request and starts with
/// the long pause. What is typed is the same.
pub open spec fn injection_sequence(
    target: Option<ElementHandle>,
    username: Seq<char>,
    password: Seq<char>,
) -> Seq<InputStepView> {
    match target {
        Some(handle) => seq![
            InputStepView::Focus(handle),
            InputStepView::Wait { ms: FOUND_SETTLE_MS },
        ] + typing_sequence(username, password),
        None => seq![InputStepView::Wait { ms: BLIND_SETTLE_MS }] + typing_sequence(
            username,
            password,
        ),
    }
}

/// Plans the injection of `credentials` into `target`, or into whatever
/// holds the focus where there is no target.
pub fn injection_plan(target: Option<ElementHandle>, credentials: &Credentials) -> (plan: Vec<
    InputStep,
>)
    ensures
        steps_of(plan@) == injection_sequence(
            target,
            credentials@.username,
            credentials@.password,
        ),
{
    let mut plan: Vec<InputStep> = Vec::new();
    match target {
        Some(handle) => {
            plan.push(InputStep::Focus(handle));
            plan.push(InputStep::Wait { ms: FOUND_SETTLE_MS });
        },
        None => {
            plan.push(InputStep::Wait { ms: BLIND_SETTLE_MS });
        },
    }
    plan.push(InputStep::Text(credentials.username.clone()));
    plan.push(InputStep::Wait { ms: KEY_GAP_MS });
    plan.push(InputStep::Key(SpecialKey::Tab));
    plan.push(InputStep::Wait { ms: KEY_GAP_MS });
    plan.push(InputStep::Text(credentials.password.clone()));
    plan.push(InputStep::Wait { ms: KEY_GAP_MS });
    plan.push(InputStep::Key(SpecialKey::Enter));
    assert(steps_of(plan@) =~= injection_sequence(
        target,
        credentials@.username,
        credentials@.password,
    ));
    plan
}

} // verus!
