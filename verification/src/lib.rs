//! A verified model of embedding a scripting-language virtual machine.
//!
//! The engine itself — compiler, interpreter, optional native-code backend —
//! is an external native library reached over a C calling surface; nothing
//! here re-implements it. What this crate pins down is the embedding
//! contract: the fixed sentinels of that surface ([`engine`]), and the two
//! smoke-test scenarios as state machines ([`compile_run`], [`error_prop`])
//! that decide, from each observation the engine hands back, which call an
//! unverified driver must make next and whether the scenario has passed.

pub mod compile_run;
pub mod engine;
pub mod error_prop;
pub mod protocol;
