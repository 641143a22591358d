//! Observations the driver hands back from the engine, and the actions a
//! scenario machine asks the driver to perform next.
//!
//! A scenario machine never touches the engine itself: an unverified driver
//! performs one [`Action`] at a time against the native calling surface and
//! feeds the machine the resulting [`Event`]. The machine's step function
//! decides everything else.

use vstd::prelude::*;

verus! {

/// What the driver observed after performing the previous action.
#[derive(Debug)]
pub enum Event {
    /// The instance-creation call returned; `nonnull` records whether the
    /// returned handle is non-null.
    Created { nonnull: bool },
    /// The native-code backend probe returned.
    CodegenProbed { supported: bool },
    /// An action with no observable result completed.
    Done,
    /// A string value was read from the stack, its length taken alongside the
    /// pointer (the engine does not guarantee null-termination).
    TextRead { text: String },
    /// Source text was compiled into a bytecode buffer of `size` bytes, now
    /// owned by the driver until released.
    Compiled { size: usize },
    /// The bytecode-load call returned `status`.
    Loaded { status: i32 },
    /// The protected-call entry point returned `status`.
    CallReturned { status: i32 },
    /// An integer value was read from the stack.
    IntRead { value: i32 },
}

/// Why a scenario failed.
#[derive(Debug, Clone, Copy, PartialEq, Eq, Structural)]
pub enum Failure {
    /// Instance creation returned a null handle.
    NullHandle,
    /// The published version identifier was not the expected text.
    WrongVersion,
    /// The bytecode-load call did not report success.
    LoadFailed,
    /// The invoked function did not return the sum of the two arguments.
    WrongResult,
    /// The protected call did not report a runtime error.
    WrongStatus,
    /// The message left on the stack was not the text the closure raised.
    WrongMessage,
    /// The driver handed back an observation the pending action cannot produce.
    UnexpectedEvent,
}

/// What the driver must perform next against the engine.
#[derive(Debug, Clone, Copy, PartialEq, Eq, Structural)]
pub enum Action {
    /// Create a fresh engine instance.
    CreateInstance,
    /// Probe whether the native-code backend is available.
    ProbeCodegen,
    /// Attach a native-code context to the instance.
    AttachCodegen,
    /// Load the standard libraries into the instance.
    OpenLibs,
    /// Fetch the global version identifier as a byte string.
    FetchVersion,
    /// Compile the scenario's script source, with default options, into a
    /// bytecode buffer.
    CompileSource,
    /// Load the compiled bytecode into the instance under the fixed chunk name.
    LoadChunk,
    /// Release the bytecode buffer through the engine's own deallocator.
    ReleaseBytecode,
    /// Ask the engine to compile the most recently loaded function to native
    /// code.
    CompileLoadedFunction,
    /// Push the two integer arguments and invoke the loaded function,
    /// unprotected, expecting one result.
    PushArgsAndCall { first: i32, second: i32 },
    /// Read the integer result from the top of the stack.
    ReadIntResult,
    /// Register a native closure whose sole behaviour is to raise an error
    /// with the fixed message, and push it as a callable value.
    RegisterErrorClosure,
    /// Invoke the pushed closure under the protected-call entry point with
    /// zero arguments and zero results.
    ProtectedCall,
    /// Read the message left on top of the stack as a byte string.
    ReadErrorMessage,
    /// Destroy the engine instance.
    CloseInstance,
    /// The scenario has passed; nothing is left to do.
    Pass,
    /// The scenario has failed for the given reason; nothing is left to do.
    Fail(Failure),
}

} // verus!
