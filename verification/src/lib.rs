//! Compiles WebAssembly test scripts (the WAST format of the official test
//! suite) into a single plain module: each `assert_return` directive becomes a
//! sequence of instructions that performs the described invocation, compares
//! the result against the expected value or pattern, and traps on mismatch.
//! The sequences are concatenated, in source order, into one synthesized entry
//! function exported as `run_assertions`, attached to the script's single
//! module.

pub mod error;
pub mod ir;
pub mod value;
pub mod invoke;
pub mod module;
pub mod directive;
pub mod driver;
pub mod semantics;
pub mod laws;
pub mod script;
