//! The compile-and-run scenario as a state machine.
//!
//! The scenario: create an instance; probe for the native-code backend and,
//! where present, attach a native-code context; load the standard libraries;
//! read the global version identifier and hold it to the expected text;
//! compile the fixed script source into a bytecode buffer; load the bytecode
//! under the fixed chunk name and hold the status to success; release the
//! buffer; where the backend is present, compile the loaded function to
//! native code; push the two integer arguments and invoke the function; hold
//! the integer result to the sum of the arguments; destroy the instance.
//!
//! The machine owns every decision; an unverified driver performs the engine
//! calls. On the first failed check the machine stops in a failed state and
//! — matching the harness it models — asks for no cleanup.

use vstd::prelude::*;

use crate::engine;
use crate::protocol::{Action, Event, Failure};

verus! {

/// Which observation the scenario awaits, or how it ended.
#[derive(Debug, Clone, Copy, PartialEq, Eq, Structural)]
pub enum Phase {
    /// Awaiting the result of instance creation.
    AwaitCreate,
    /// Awaiting the native-code backend probe.
    AwaitProbe,
    /// Awaiting completion of attaching the native-code context.
    AwaitAttach,
    /// Awaiting completion of loading the standard libraries.
    AwaitOpenLibs,
    /// Awaiting the published version identifier.
    AwaitVersion,
    /// Awaiting the compiled bytecode buffer.
    AwaitCompile,
    /// Awaiting the status of the bytecode load.
    AwaitLoad,
    /// Awaiting completion of the buffer's release.
    AwaitRelease,
    /// Awaiting completion of native-code compilation of the loaded function.
    AwaitJit,
    /// Awaiting completion of the unprotected invocation.
    AwaitCall,
    /// Awaiting the integer result read from the stack.
    AwaitResult,
    /// Awaiting completion of the instance's destruction.
    AwaitClose,
    /// Every check passed and the instance is destroyed.
    Finished,
    /// A check failed; the scenario stopped without cleanup.
    Failed(Failure),
}

/// The compile-and-run scenario, parameterised by its two integer arguments.
#[derive(Debug, Clone, Copy, PartialEq, Eq, Structural)]
pub struct CompileRun {
    /// Where the scenario stands.
    pub phase: Phase,
    /// What the backend probe reported; `false` until the probe answered.
    pub codegen_supported: bool,
    /// Whether a compiled bytecode buffer is currently owned and unreleased.
    pub bytecode_live: bool,
    /// First integer argument handed to the loaded function.
    pub first: i32,
    /// Second integer argument handed to the loaded function.
    pub second: i32,
}

/// The machine a fresh scenario starts in.
pub open spec fn fresh_spec(first: i32, second: i32) -> CompileRun {
    CompileRun {
        phase: Phase::AwaitCreate,
        codegen_supported: false,
        bytecode_live: false,
        first,
        second,
    }
}

/// A failed machine: the phase records the reason, everything else — the
/// buffer included — stays as it was, since the modelled harness performs no
/// cleanup on a failed check.
pub open spec fn fail_spec(m: CompileRun, f: Failure) -> (CompileRun, Action) {
    (CompileRun { phase: Phase::Failed(f), ..m }, Action::Fail(f))
}

/// The transition relation: from a machine and the observation it awaited,
/// the machine after the step and the action the driver must perform next.
/// Total: an observation the pending action cannot produce fails the
/// scenario rather than being ignored.
pub open spec fn next_spec(m: CompileRun, ev: Event) -> (CompileRun, Action) {
    match (m.phase, ev) {
        (Phase::AwaitCreate, Event::Created { nonnull }) => {
            if nonnull {
                (CompileRun { phase: Phase::AwaitProbe, ..m }, Action::ProbeCodegen)
            } else {
                fail_spec(m, Failure::NullHandle)
            }
        },
        (Phase::AwaitProbe, Event::CodegenProbed { supported }) => {
            if supported {
                (
                    CompileRun { phase: Phase::AwaitAttach, codegen_supported: true, ..m },
                    Action::AttachCodegen,
                )
            } else {
                (
                    CompileRun { phase: Phase::AwaitOpenLibs, codegen_supported: false, ..m },
                    Action::OpenLibs,
                )
            }
        },
        (Phase::AwaitAttach, Event::Done) => {
            (CompileRun { phase: Phase::AwaitOpenLibs, ..m }, Action::OpenLibs)
        },
        (Phase::AwaitOpenLibs, Event::Done) => {
            (CompileRun { phase: Phase::AwaitVersion, ..m }, Action::FetchVersion)
        },
        (Phase::AwaitVersion, Event::TextRead { text }) => {
            if text@ == engine::version_text() {
                (CompileRun { phase: Phase::AwaitCompile, ..m }, Action::CompileSource)
            } else {
                fail_spec(m, Failure::WrongVersion)
            }
        },
        (Phase::AwaitCompile, Event::Compiled { .. }) => {
            (CompileRun { phase: Phase::AwaitLoad, bytecode_live: true, ..m }, Action::LoadChunk)
        },
        (Phase::AwaitLoad, Event::Loaded { status }) => {
            if status == engine::STATUS_OK {
                (CompileRun { phase: Phase::AwaitRelease, ..m }, Action::ReleaseBytecode)
            } else {
                fail_spec(m, Failure::LoadFailed)
            }
        },
        (Phase::AwaitRelease, Event::Done) => {
            if m.codegen_supported {
                (
                    CompileRun { phase: Phase::AwaitJit, bytecode_live: false, ..m },
                    Action::CompileLoadedFunction,
                )
            } else {
                (
                    CompileRun { phase: Phase::AwaitCall, bytecode_live: false, ..m },
                    Action::PushArgsAndCall { first: m.first, second: m.second },
                )
            }
        },
        (Phase::AwaitJit, Event::Done) => {
            (
                CompileRun { phase: Phase::AwaitCall, ..m },
                Action::PushArgsAndCall { first: m.first, second: m.second },
            )
        },
        (Phase::AwaitCall, Event::Done) => {
            (CompileRun { phase: Phase::AwaitResult, ..m }, Action::ReadIntResult)
        },
        (Phase::AwaitResult, Event::IntRead { value }) => {
            if value as int == m.first as int + m.second as int {
                (CompileRun { phase: Phase::AwaitClose, ..m }, Action::CloseInstance)
            } else {
                fail_spec(m, Failure::WrongResult)
            }
        },
        (Phase::AwaitClose, Event::Done) => {
            (CompileRun { phase: Phase::Finished, ..m }, Action::Pass)
        },
        (Phase::Finished, _) => (m, Action::Pass),
        (Phase::Failed(f), _) => (m, Action::Fail(f)),
        _ => fail_spec(m, Failure::UnexpectedEvent),
    }
}

impl CompileRun {
    /// Well-formedness: the machine owns a live bytecode buffer exactly while
    /// one is awaiting its load or its release, and native-code phases are
    /// only reached when the probe reported support.
    pub open spec fn wf(self) -> bool {
        &&& ((self.phase == Phase::AwaitLoad || self.phase == Phase::AwaitRelease)
            ==> self.bytecode_live)
        &&& (match self.phase {
            Phase::AwaitCreate
            | Phase::AwaitProbe
            | Phase::AwaitAttach
            | Phase::AwaitOpenLibs
            | Phase::AwaitVersion
            | Phase::AwaitCompile
            | Phase::AwaitJit
            | Phase::AwaitCall
            | Phase::AwaitResult
            | Phase::AwaitClose
            | Phase::Finished => !self.bytecode_live,
            _ => true,
        })
        &&& ((self.phase == Phase::AwaitAttach || self.phase == Phase::AwaitJit)
            ==> self.codegen_supported)
    }

    /// A fresh scenario for the given integer arguments; the driver's first
    /// duty is to create the instance.
    pub fn new(first: i32, second: i32) -> (m: CompileRun)
        ensures
            m == fresh_spec(first, second),
            m.wf(),
    {
        CompileRun {
            phase: Phase::AwaitCreate,
            codegen_supported: false,
            bytecode_live: false,
            first,
            second,
        }
    }

    /// Consumes the observation of the previous action and returns the action
    /// the driver must perform next, exactly as the transition relation says.
    pub fn step(&mut self, ev: Event) -> (act: Action)
        ensures
            (*final(self), act) == next_spec(*old(self), ev),
    {
        match (self.phase, ev) {
            (Phase::AwaitCreate, Event::Created { nonnull }) => {
                if nonnull {
                    self.phase = Phase::AwaitProbe;
                    Action::ProbeCodegen
                } else {
                    self.fail(Failure::NullHandle)
                }
            },
            (Phase::AwaitProbe, Event::CodegenProbed { supported }) => {
                self.codegen_supported = supported;
                if supported {
                    self.phase = Phase::AwaitAttach;
                    Action::AttachCodegen
                } else {
                    self.phase = Phase::AwaitOpenLibs;
                    Action::OpenLibs
                }
            },
            (Phase::AwaitAttach, Event::Done) => {
                self.phase = Phase::AwaitOpenLibs;
                Action::OpenLibs
            },
            (Phase::AwaitOpenLibs, Event::Done) => {
                self.phase = Phase::AwaitVersion;
                Action::FetchVersion
            },
            (Phase::AwaitVersion, Event::TextRead { text }) => {
                let expected: String = engine::expected_version().to_owned();
                if text == expected {
                    self.phase = Phase::AwaitCompile;
                    Action::CompileSource
                } else {
                    self.fail(Failure::WrongVersion)
                }
            },
            (Phase::AwaitCompile, Event::Compiled { .. }) => {
                self.phase = Phase::AwaitLoad;
                self.bytecode_live = true;
                Action::LoadChunk
            },
            (Phase::AwaitLoad, Event::Loaded { status }) => {
                if status == engine::STATUS_OK {
                    self.phase = Phase::AwaitRelease;
                    Action::ReleaseBytecode
                } else {
                    self.fail(Failure::LoadFailed)
                }
            },
            (Phase::AwaitRelease, Event::Done) => {
                self.bytecode_live = false;
                if self.codegen_supported {
                    self.phase = Phase::AwaitJit;
                    Action::CompileLoadedFunction
                } else {
                    self.phase = Phase::AwaitCall;
                    Action::PushArgsAndCall { first: self.first, second: self.second }
                }
            },
            (Phase::AwaitJit, Event::Done) => {
                self.phase = Phase::AwaitCall;
                Action::PushArgsAndCall { first: self.first, second: self.second }
            },
            (Phase::AwaitCall, Event::Done) => {
                self.phase = Phase::AwaitResult;
                Action::ReadIntResult
            },
            (Phase::AwaitResult, Event::IntRead { value }) => {
                if value as i64 == self.first as i64 + self.second as i64 {
                    self.phase = Phase::AwaitClose;
                    Action::CloseInstance
                } else {
                    self.fail(Failure::WrongResult)
                }
            },
            (Phase::AwaitClose, Event::Done) => {
                self.phase = Phase::Finished;
                Action::Pass
            },
            (Phase::Finished, _) => Action::Pass,
            (Phase::Failed(f), _) => Action::Fail(f),
            _ => self.fail(Failure::UnexpectedEvent),
        }
    }

    /// Records a failed check; the buffer, if any, stays unreleased.
    fn fail(&mut self, f: Failure) -> (act: Action)
        ensures
            (*final(self), act) == fail_spec(*old(self), f),
    {
        self.phase = Phase::Failed(f);
        Action::Fail(f)
    }
}

/// The machine after consuming the observations of `evs`, in order.
pub open spec fn run_state(m: CompileRun, evs: Seq<Event>) -> CompileRun
    decreases evs.len(),
{
    if evs.len() == 0 {
        m
    } else {
        run_state(next_spec(m, evs[0]).0, evs.skip(1))
    }
}

/// The actions the machine emits while consuming `evs`, in order.
pub open spec fn run_actions(m: CompileRun, evs: Seq<Event>) -> Seq<Action>
    decreases evs.len(),
{
    if evs.len() == 0 {
        Seq::empty()
    } else {
        seq![next_spec(m, evs[0]).1] + run_actions(next_spec(m, evs[0]).0, evs.skip(1))
    }
}

/// How many of `acts` ask for the bytecode buffer's release.
pub open spec fn count_releases(acts: Seq<Action>) -> nat
    decreases acts.len(),
{
    if acts.len() == 0 {
        0
    } else {
        (if acts[0] == Action::ReleaseBytecode {
            1nat
        } else {
            0nat
        }) + count_releases(acts.skip(1))
    }
}

/// True while a release request may still lie ahead: the one release is asked
/// for on the transition out of `AwaitLoad`, and no later phase returns here.
pub open spec fn release_pending(m: CompileRun) -> bool {
    match m.phase {
        Phase::AwaitCreate
        | Phase::AwaitProbe
        | Phase::AwaitAttach
        | Phase::AwaitOpenLibs
        | Phase::AwaitVersion
        | Phase::AwaitCompile
        | Phase::AwaitLoad => true,
        _ => false,
    }
}

/// Every step preserves well-formedness.
pub proof fn lemma_step_preserves_wf(m: CompileRun, ev: Event)
    requires
        m.wf(),
    ensures
        next_spec(m, ev).0.wf(),
{
}

/// The machine asks for the buffer's release only while it owns a live,
/// unreleased buffer: never before a successful compilation, never after the
/// release.
pub proof fn lemma_release_only_while_live(m: CompileRun, ev: Event)
    requires
        m.wf(),
    ensures
        next_spec(m, ev).1 == Action::ReleaseBytecode ==> m.bytecode_live,
{
}

/// A step asks for a release only while one is pending, pending never comes
/// back, and the only way out of pending without a release is a failure.
proof fn lemma_pending_steps_down(m: CompileRun, ev: Event)
    ensures
        next_spec(m, ev).1 == Action::ReleaseBytecode ==> release_pending(m) && !release_pending(
            next_spec(m, ev).0,
        ),
        release_pending(next_spec(m, ev).0) ==> release_pending(m),
        (release_pending(m) && !release_pending(next_spec(m, ev).0) && next_spec(m, ev).1
            != Action::ReleaseBytecode) ==> next_spec(m, ev).0.phase is Failed,
{
}

/// A machine that has passed or failed absorbs every further observation
/// unchanged.
proof fn lemma_end_states_absorb(m: CompileRun, evs: Seq<Event>)
    requires
        m.phase is Failed || m.phase == Phase::Finished,
    ensures
        run_state(m, evs) == m,
    decreases evs.len(),
{
    if evs.len() != 0 {
        lemma_end_states_absorb(next_spec(m, evs[0]).0, evs.skip(1));
    }
}

/// Over any observation sequence at all, the machine asks for the bytecode
/// buffer's release at most once — and not even once when the release already
/// lies behind it.
pub proof fn lemma_release_at_most_once(m: CompileRun, evs: Seq<Event>)
    ensures
        count_releases(run_actions(m, evs)) <= (if release_pending(m) {
            1nat
        } else {
            0nat
        }),
    decreases evs.len(),
{
    if evs.len() != 0 {
        let stepped = next_spec(m, evs[0]);
        let rest = run_actions(stepped.0, evs.skip(1));
        lemma_pending_steps_down(m, evs[0]);
        lemma_release_at_most_once(stepped.0, evs.skip(1));
        assert((seq![stepped.1] + rest).skip(1) =~= rest);
    }
}

/// A run of a fresh scenario, whatever the engine hands back, asks for the
/// bytecode buffer's release at most once.
pub proof fn lemma_fresh_run_releases_at_most_once(first: i32, second: i32, evs: Seq<Event>)
    ensures
        count_releases(run_actions(fresh_spec(first, second), evs)) <= 1,
{
    lemma_release_at_most_once(fresh_spec(first, second), evs);
}

/// A run that ends with every check passed asked for exactly one release when
/// the release still lay ahead at its start, and none otherwise.
proof fn lemma_successful_run_releases_once_from(m: CompileRun, evs: Seq<Event>)
    requires
        run_state(m, evs).phase == Phase::Finished,
    ensures
        count_releases(run_actions(m, evs)) == (if release_pending(m) {
            1nat
        } else {
            0nat
        }),
    decreases evs.len(),
{
    if evs.len() != 0 {
        let stepped = next_spec(m, evs[0]);
        let rest = run_actions(stepped.0, evs.skip(1));
        lemma_pending_steps_down(m, evs[0]);
        if stepped.0.phase is Failed {
            lemma_end_states_absorb(stepped.0, evs.skip(1));
        }
        lemma_successful_run_releases_once_from(stepped.0, evs.skip(1));
        assert((seq![stepped.1] + rest).skip(1) =~= rest);
    }
}

/// A run of a fresh scenario that ends with every check passed asked for
/// exactly one release of its one compiled bytecode buffer.
pub proof fn lemma_successful_run_releases_once(first: i32, second: i32, evs: Seq<Event>)
    requires
        run_state(fresh_spec(first, second), evs).phase == Phase::Finished,
    ensures
        count_releases(run_actions(fresh_spec(first, second), evs)) == 1,
{
    lemma_successful_run_releases_once_from(fresh_spec(first, second), evs);
}

/// The observations of one whole scenario in which the backend probe answered
/// `supported` and the engine handed back the given values: the handle's
/// nullness, the version text, the buffer size, the load status and the
/// integer result. With the backend come two extra completions — attaching
/// the native-code context and compiling the loaded function — and nothing
/// else differs.
pub open spec fn scenario_trace(
    supported: bool,
    nonnull: bool,
    text: String,
    size: usize,
    status: i32,
    value: i32,
) -> Seq<Event> {
    if supported {
        seq![
            Event::Created { nonnull },
            Event::CodegenProbed { supported: true },
            Event::Done,
            Event::Done,
            Event::TextRead { text },
            Event::Compiled { size },
            Event::Loaded { status },
            Event::Done,
            Event::Done,
            Event::Done,
            Event::IntRead { value },
            Event::Done,
        ]
    } else {
        seq![
            Event::Created { nonnull },
            Event::CodegenProbed { supported: false },
            Event::Done,
            Event::TextRead { text },
            Event::Compiled { size },
            Event::Loaded { status },
            Event::Done,
            Event::Done,
            Event::IntRead { value },
            Event::Done,
        ]
    }
}

/// The native-code backend never decides the scenario: over the same engine
/// observations, a run that attaches and uses the backend ends in exactly the
/// same phase — the same verdict, for the same reason — as a run on the
/// interpreted path alone.
#[verifier::rlimit(100)]
pub proof fn lemma_codegen_never_decides(
    first: i32,
    second: i32,
    nonnull: bool,
    text: String,
    size: usize,
    status: i32,
    value: i32,
)
    ensures
        run_state(fresh_spec(first, second), scenario_trace(true, nonnull, text, size, status, value)).phase
            == run_state(
            fresh_spec(first, second),
            scenario_trace(false, nonnull, text, size, status, value),
        ).phase,
{
    reveal_with_fuel(run_state, 14);
}

/// The scenario passes exactly when the handle was non-null, the published
/// version identifier was the expected text, the bytecode load reported
/// success, and the invoked function returned the sum of the two arguments —
/// whether or not the native-code backend took part.
#[verifier::rlimit(100)]
pub proof fn lemma_verdict_exact(
    first: i32,
    second: i32,
    supported: bool,
    nonnull: bool,
    text: String,
    size: usize,
    status: i32,
    value: i32,
)
    ensures
        run_state(
            fresh_spec(first, second),
            scenario_trace(supported, nonnull, text, size, status, value),
        ).phase == Phase::Finished <==> (nonnull && text@ == engine::version_text() && status
            == engine::STATUS_OK && value as int == first as int + second as int),
{
    reveal_with_fuel(run_state, 14);
}

/// A fresh machine is a function of its arguments alone: repeating a scenario
/// with the same arguments over the same observations emits the same actions
/// and ends in the same state. No state survives from one run into the next.
pub proof fn lemma_repetition(first: i32, second: i32, evs1: Seq<Event>, evs2: Seq<Event>)
    requires
        evs1 == evs2,
    ensures
        run_actions(fresh_spec(first, second), evs1) == run_actions(fresh_spec(first, second), evs2),
        run_state(fresh_spec(first, second), evs1) == run_state(fresh_spec(first, second), evs2),
{
}

} // verus!
