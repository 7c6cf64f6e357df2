//! A competitive-programming judge worker: compiles a submitted source file,
//! runs it once per test case inside a kernel-enforced sandbox, and reports a
//! verdict together with wall-clock time and peak resident memory per case.
//!
//! This crate holds the verified core of the pipeline: the data model, the
//! language-keyed command tables, the sandbox plan, the supervisor state
//! machine that turns poll observations into verdicts, and the
//! whitespace-normalised output comparator.  The host process around it does
//! the actual process spawning, file I/O and `/proc` sampling, and feeds the
//! observations back in as plain values.

pub mod case;
pub mod compare;
pub mod compile;
pub mod config;
pub mod engine;
pub mod exec;
pub mod judge;
pub mod utils;
