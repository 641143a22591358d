//! Fixed sentinels of the engine's calling surface and the exact texts the
//! scenarios exchange with it.
//!
//! The engine reports status codes from its bytecode-load and protected-call
//! entry points, and reserves one negative pseudo-index that names the global
//! table instead of an ordinary stack slot. Both scenarios also depend on a
//! handful of fixed strings: the global under which the engine publishes its
//! version, the version text itself, the script source, the chunk name the
//! bytecode is loaded under, and the message the error scenario raises.

use vstd::prelude::*;

verus! {

/// Status reported by the bytecode-load and protected-call entry points on success.
pub const STATUS_OK: i32 = 0;

/// Status reported by the protected-call entry point when the callee raised a
/// runtime error.
pub const STATUS_RUNTIME_ERROR: i32 = 2;

/// Reserved pseudo-index naming the global table: a fixed negative sentinel,
/// not an ordinary stack index.
pub const GLOBALS_PSEUDO_INDEX: i32 = -102002;

/// An ordinary stack index addresses a live slot of a stack holding `top`
/// values: counted from the bottom when positive, from the top when negative,
/// and never zero.
pub open spec fn is_ordinary_stack_index(i: int, top: nat) -> bool {
    ||| 1 <= i <= top
    ||| -(top as int) <= i <= -1
}

/// The global-table pseudo-index is negative and collides with no ordinary
/// stack index, at any stack height below its absolute value; the engine's
/// stack stays far under that bound.
pub proof fn lemma_pseudo_index_is_reserved(top: nat)
    requires
        top < 102002,
    ensures
        GLOBALS_PSEUDO_INDEX < 0,
        !is_ordinary_stack_index(GLOBALS_PSEUDO_INDEX as int, top),
{
}

/// Name of the global variable under which the engine publishes its version.
pub open spec fn version_global_text() -> Seq<char> {
    "_VERSION"@
}

/// The version identifier a healthy engine is expected to publish.
pub open spec fn version_text() -> Seq<char> {
    "Luau"@
}

/// Source text of the script the compile-and-run scenario compiles: it adds
/// its two arguments.
pub open spec fn sum_source_text() -> Seq<char> {
    "local a, b = ... return a + b"@
}

/// Chunk name the compiled bytecode is loaded under.
pub open spec fn chunk_name_text() -> Seq<char> {
    "sum"@
}

/// Message the error scenario's closure raises, and the exact text expected
/// back on top of the stack after the protected call fails.
pub open spec fn error_message_text() -> Seq<char> {
    "exception!"@
}

/// Name of the global variable under which the engine publishes its version.
pub fn version_global() -> (s: &'static str)
    ensures
        s@ == version_global_text(),
{
    "_VERSION"
}

/// The version identifier a healthy engine is expected to publish.
pub fn expected_version() -> (s: &'static str)
    ensures
        s@ == version_text(),
{
    "Luau"
}

/// Source text of the script the compile-and-run scenario compiles.
pub fn sum_source() -> (s: &'static str)
    ensures
        s@ == sum_source_text(),
{
    "local a, b = ... return a + b"
}

/// Chunk name the compiled bytecode is loaded under.
pub fn chunk_name() -> (s: &'static str)
    ensures
        s@ == chunk_name_text(),
{
    "sum"
}

/// Message the error scenario's closure raises.
pub fn error_message() -> (s: &'static str)
    ensures
        s@ == error_message_text(),
{
    "exception!"
}

} // verus!
