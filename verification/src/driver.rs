//! The driver loop's decision table: the generic prompt-driver
//! protocol, uniform across prompt types. The loop itself blocks on
//! input and talks to the terminal, so it lives with the caller; every
//! decision it takes — wait, redraw, dispatch to the state machine,
//! validate and submit, finish, or abort — is fixed here.

use vstd::prelude::*;
use crate::action::{Action, DateSelectPromptAction};
use crate::dateselect::{ActionResult, DateOutput};

verus! {

/// What the driver loop does next with the current session.
#[derive(Clone, Copy, Debug, PartialEq, Eq, Structural)]
pub enum DriverDecision {
    /// Block for the next input event without redrawing.
    Wait,
    /// Redraw the prompt, then block for the next input event.
    Redraw,
    /// Hand this semantic action to the state machine.
    Dispatch(DateSelectPromptAction),
    /// Run the validation pipeline and try to produce the answer.
    RunSubmit,
    /// Return the produced answer and end the session.
    Finish,
    /// End the session with a cancellation outcome.
    Abort,
}

/// The decision for one mapped input event: an unmapped event is
/// ignored without a redraw, an abort ends the session at any point —
/// a pending confirmation included — a submit request runs the
/// pipeline, and an inner action goes to the state machine.
pub open spec fn spec_driver_step(action: Option<Action>) -> DriverDecision {
    match action {
        None => DriverDecision::Wait,
        Some(Action::Abort) => DriverDecision::Abort,
        Some(Action::Submit) => DriverDecision::RunSubmit,
        Some(Action::Inner(inner)) => DriverDecision::Dispatch(inner),
    }
}

/// Decides on one mapped input event, exactly as [`spec_driver_step`]
/// fixes it.
pub fn driver_step(action: Option<Action>) -> (r: DriverDecision)
    ensures
        r == spec_driver_step(action),
{
    match action {
        None => DriverDecision::Wait,
        Some(Action::Abort) => DriverDecision::Abort,
        Some(Action::Submit) => DriverDecision::RunSubmit,
        Some(Action::Inner(inner)) => DriverDecision::Dispatch(inner),
    }
}

/// The decision after the state machine handled an action: no visible
/// change loops without a redraw, a visible change redraws, and a
/// submission signal runs the pipeline.
pub open spec fn spec_driver_after_handle(result: ActionResult) -> DriverDecision {
    match result {
        ActionResult::Clean => DriverDecision::Wait,
        ActionResult::NeedsRedraw => DriverDecision::Redraw,
        ActionResult::Submit => DriverDecision::RunSubmit,
    }
}

/// Decides on a handled action's result, exactly as
/// [`spec_driver_after_handle`] fixes it.
pub fn driver_after_handle(result: ActionResult) -> (r: DriverDecision)
    ensures
        r == spec_driver_after_handle(result),
{
    match result {
        ActionResult::Clean => DriverDecision::Wait,
        ActionResult::NeedsRedraw => DriverDecision::Redraw,
        ActionResult::Submit => DriverDecision::RunSubmit,
    }
}

/// The decision after a submission attempt: an accepted answer ends
/// the session; a rejected one resumes the loop with the stored error
/// shown on the next render.
pub open spec fn spec_driver_after_submit(answer: Option<DateOutput>) -> DriverDecision {
    match answer {
        Some(_) => DriverDecision::Finish,
        None => DriverDecision::Redraw,
    }
}

/// Decides on a submission outcome, exactly as
/// [`spec_driver_after_submit`] fixes it.
pub fn driver_after_submit(answer: &Option<DateOutput>) -> (r: DriverDecision)
    ensures
        r == spec_driver_after_submit(*answer),
{
    match answer {
        Some(_) => DriverDecision::Finish,
        None => DriverDecision::Redraw,
    }
}

} // verus!
