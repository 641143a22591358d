//! The error-propagation scenario as a state machine.
//!
//! The scenario: create an instance; register a native closure whose sole
//! behaviour is to raise an engine error with the fixed message — the raising
//! entry point never returns to its caller; invoke the closure under the
//! protected-call entry point with zero arguments and zero results; hold the
//! returned status to the runtime-error sentinel; read the value left on top
//! of the stack as a byte string and hold it to the exact message raised.
//!
//! As with the compile-and-run scenario, the machine owns every decision and
//! an unverified driver performs the engine calls; on a failed check it stops
//! without cleanup.

use vstd::prelude::*;

use crate::engine;
use crate::protocol::{Action, Event, Failure};

verus! {

/// Which observation the scenario awaits, or how it ended.
#[derive(Debug, Clone, Copy, PartialEq, Eq, Structural)]
pub enum Phase {
    /// Awaiting the result of instance creation.
    AwaitCreate,
    /// Awaiting completion of registering the error-raising closure.
    AwaitRegister,
    /// Awaiting the status of the protected call.
    AwaitCall,
    /// Awaiting the message read from the top of the stack.
    AwaitMessage,
    /// The protected call failed as expected, with the exact message raised.
    Finished,
    /// A check failed; the scenario stopped without cleanup.
    Failed(Failure),
}

/// The error-propagation scenario.
#[derive(Debug, Clone, Copy, PartialEq, Eq, Structural)]
pub struct ErrorProp {
    /// Where the scenario stands.
    pub phase: Phase,
}

/// The machine a fresh scenario starts in.
pub open spec fn fresh_spec() -> ErrorProp {
    ErrorProp { phase: Phase::AwaitCreate }
}

/// A failed machine.
pub open spec fn fail_spec(f: Failure) -> (ErrorProp, Action) {
    (ErrorProp { phase: Phase::Failed(f) }, Action::Fail(f))
}

/// The transition relation: from a machine and the observation it awaited,
/// the machine after the step and the action the driver must perform next.
/// Total: an observation the pending action cannot produce fails the
/// scenario rather than being ignored.
pub open spec fn next_spec(m: ErrorProp, ev: Event) -> (ErrorProp, Action) {
    match (m.phase, ev) {
        (Phase::AwaitCreate, Event::Created { nonnull }) => {
            if nonnull {
                (ErrorProp { phase: Phase::AwaitRegister }, Action::RegisterErrorClosure)
            } else {
                fail_spec(Failure::NullHandle)
            }
        },
        (Phase::AwaitRegister, Event::Done) => {
            (ErrorProp { phase: Phase::AwaitCall }, Action::ProtectedCall)
        },
        (Phase::AwaitCall, Event::CallReturned { status }) => {
            if status == engine::STATUS_RUNTIME_ERROR {
                (ErrorProp { phase: Phase::AwaitMessage }, Action::ReadErrorMessage)
            } else {
                fail_spec(Failure::WrongStatus)
            }
        },
        (Phase::AwaitMessage, Event::TextRead { text }) => {
            if text@ == engine::error_message_text() {
                (ErrorProp { phase: Phase::Finished }, Action::Pass)
            } else {
                fail_spec(Failure::WrongMessage)
            }
        },
        (Phase::Finished, _) => (m, Action::Pass),
        (Phase::Failed(f), _) => (m, Action::Fail(f)),
        _ => fail_spec(Failure::UnexpectedEvent),
    }
}

impl ErrorProp {
    /// A fresh scenario; the driver's first duty is to create the instance.
    pub fn new() -> (m: ErrorProp)
        ensures
            m == fresh_spec(),
    {
        ErrorProp { phase: Phase::AwaitCreate }
    }

    /// Consumes the observation of the previous action and returns the action
    /// the driver must perform next, exactly as the transition relation says.
    pub fn step(&mut self, ev: Event) -> (act: Action)
        ensures
            (*final(self), act) == next_spec(*old(self), ev),
    {
        match (self.phase, ev) {
            (Phase::AwaitCreate, Event::Created { nonnull }) => {
                if nonnull {
                    self.phase = Phase::AwaitRegister;
                    Action::RegisterErrorClosure
                } else {
                    self.fail(Failure::NullHandle)
                }
            },
            (Phase::AwaitRegister, Event::Done) => {
                self.phase = Phase::AwaitCall;
                Action::ProtectedCall
            },
            (Phase::AwaitCall, Event::CallReturned { status }) => {
                if status == engine::STATUS_RUNTIME_ERROR {
                    self.phase = Phase::AwaitMessage;
                    Action::ReadErrorMessage
                } else {
                    self.fail(Failure::WrongStatus)
                }
            },
            (Phase::AwaitMessage, Event::TextRead { text }) => {
                let expected: String = engine::error_message().to_owned();
                if text == expected {
                    self.phase = Phase::Finished;
                    Action::Pass
                } else {
                    self.fail(Failure::WrongMessage)
                }
            },
            (Phase::Finished, _) => Action::Pass,
            (Phase::Failed(f), _) => Action::Fail(f),
            _ => self.fail(Failure::UnexpectedEvent),
        }
    }

    /// Records a failed check.
    fn fail(&mut self, f: Failure) -> (act: Action)
        ensures
            (*final(self), act) == fail_spec(f),
    {
        self.phase = Phase::Failed(f);
        Action::Fail(f)
    }
}

/// The machine after consuming the observations of `evs`, in order.
pub open spec fn run_state(m: ErrorProp, evs: Seq<Event>) -> ErrorProp
    decreases evs.len(),
{
    if evs.len() == 0 {
        m
    } else {
        run_state(next_spec(m, evs[0]).0, evs.skip(1))
    }
}

/// The actions the machine emits while consuming `evs`, in order.
pub open spec fn run_actions(m: ErrorProp, evs: Seq<Event>) -> Seq<Action>
    decreases evs.len(),
{
    if evs.len() == 0 {
        Seq::empty()
    } else {
        seq![next_spec(m, evs[0]).1] + run_actions(next_spec(m, evs[0]).0, evs.skip(1))
    }
}

/// The observations of one whole scenario: the handle's nullness, the status
/// the protected call returned, and the text read from the top of the stack.
pub open spec fn scenario_trace(nonnull: bool, status: i32, text: String) -> Seq<Event> {
    seq![
        Event::Created { nonnull },
        Event::Done,
        Event::CallReturned { status },
        Event::TextRead { text },
    ]
}

/// The scenario passes exactly when the handle was non-null, the protected
/// call reported the runtime-error sentinel, and the text left on the stack
/// is exactly the message the closure raised.
pub proof fn lemma_verdict_exact(nonnull: bool, status: i32, text: String)
    ensures
        run_state(fresh_spec(), scenario_trace(nonnull, status, text)).phase == Phase::Finished
            <==> (nonnull && status == engine::STATUS_RUNTIME_ERROR && text@
            == engine::error_message_text()),
{
    reveal_with_fuel(run_state, 6);
}

/// A fresh machine holds nothing: repeating the scenario over the same
/// observations emits the same actions and ends in the same state. No state
/// survives from one run into the next.
pub proof fn lemma_repetition(evs1: Seq<Event>, evs2: Seq<Event>)
    requires
        evs1 == evs2,
    ensures
        run_actions(fresh_spec(), evs1) == run_actions(fresh_spec(), evs2),
        run_state(fresh_spec(), evs1) == run_state(fresh_spec(), evs2),
{
}

} // verus!
