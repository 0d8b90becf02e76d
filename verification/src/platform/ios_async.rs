//! Waiting on the main thread for a completion handler, by running the main
//! run loop in short slices until the handler has delivered its value or the
//! deadline has passed.
use vstd::prelude::*;
use crate::outcome::result_view;

verus! {

/// The error when the handler has not delivered before the deadline.
pub open spec fn timed_out_message() -> Seq<char> {
    "Async operation timed out"@
}

/// The error when the slot holding the delivered value was poisoned.
pub open spec fn poisoned_message() -> Seq<char> {
    "Async completion mutex poisoned"@
}

/// The error when the wait ended with no value delivered.
pub open spec fn no_value_message() -> Seq<char> {
    "Async completion returned no value"@
}

/// What to do next while waiting.
#[derive(PartialEq, Eq, Structural, Debug)]
pub enum PumpStep {
    /// The value has been delivered; stop waiting.
    Finished,
    /// Run the main run loop for one more short slice.
    RunLoopOnce,
}

/// The next step of the wait: stop once the value is there, give up once
/// the deadline has passed, otherwise keep the run loop going.
pub fn pump_step(done: bool, deadline_passed: bool) -> (r: Result<PumpStep, String>)
    ensures
        result_view(r) == if done {
            Ok(PumpStep::Finished)
        } else if deadline_passed {
            Err(timed_out_message())
        } else {
            Ok(PumpStep::RunLoopOnce)
        },
{
    if done {
        Ok(PumpStep::Finished)
    } else if deadline_passed {
        Err("Async operation timed out".to_string())
    } else {
        Ok(PumpStep::RunLoopOnce)
    }
}

/// The slot a completion handler delivers its value to, as read after the
/// wait.
pub enum CompletionSlot<T> {
    /// The slot's lock was poisoned.
    Poisoned,
    /// No value was delivered.
    Empty,
    /// The delivered value.
    Filled(T),
}

/// The value a completion handler delivered, once the run loop has been
/// pumped (`pumped` is the outcome of the wait).
pub fn wait_for_async_completion<T>(pumped: Result<(), String>, slot: CompletionSlot<T>) -> (r:
    Result<T, String>)
    ensures
        result_view(r) == match pumped {
            Err(e) => Err(e@),
            Ok(_) => match slot {
                CompletionSlot::Poisoned => Err(poisoned_message()),
                CompletionSlot::Empty => Err(no_value_message()),
                CompletionSlot::Filled(v) => Ok(v),
            },
        },
{
    pumped?;
    match slot {
        CompletionSlot::Poisoned => Err("Async completion mutex poisoned".to_string()),
        CompletionSlot::Empty => Err("Async completion returned no value".to_string()),
        CompletionSlot::Filled(v) => Ok(v),
    }
}

} // verus!
