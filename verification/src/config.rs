//! Per-submission configuration: resource limits, judging flags, and the
//! input/expected-output pair that makes up one test case.

use vstd::prelude::*;

verus! {

/// Default wall-clock budget per case: one second, in milliseconds.
pub const DEFAULT_TIME_LIMIT_MS: u64 = 1000;

/// Default memory budget per case: 128 MiB, in bytes.
pub const DEFAULT_MEMORY_LIMIT_BYTES: u64 = 128 * 1024 * 1024;

/// Options governing one judged submission.
///
/// Durations are carried as whole milliseconds so that every budget check in
/// the verified core is plain integer arithmetic.
#[derive(Debug, Clone)]
pub struct JudgeOptions {
    /// Wall-clock budget per case, in milliseconds; also the CPU-time rlimit
    /// (rounded down to whole seconds) applied inside the sandbox.
    pub time_limit: u64,
    /// Memory budget per case, in bytes: the address-space rlimit and the
    /// resident-set threshold at which the supervisor kills the child.
    pub memory_limit: u64,
    /// Stop running cases after the first non-accepted verdict.
    pub fail_fast: bool,
    /// Suppress the address-space rlimit and the seccomp filter, for runtimes
    /// whose startup legitimately trips either.
    pub no_startup_limits: bool,
    /// Suppress the mount-namespace detach, for hosts without the required
    /// kernel capability.
    pub unsafe_mode: bool,
}

impl JudgeOptions {
    /// The default configuration: one second, 128 MiB, fail fast, full sandbox.
    pub open spec fn spec_default() -> JudgeOptions {
        JudgeOptions {
            time_limit: DEFAULT_TIME_LIMIT_MS,
            memory_limit: DEFAULT_MEMORY_LIMIT_BYTES,
            fail_fast: true,
            no_startup_limits: false,
            unsafe_mode: false,
        }
    }

    /// Set whether judging stops at the first non-accepted verdict.
    pub fn fail_fast(self, fail_fast: bool) -> (r: Self)
        ensures
            r == (JudgeOptions { fail_fast, ..self }),
    {
        JudgeOptions { fail_fast, ..self }
    }

    /// Run every case regardless of verdicts.
    pub fn no_fail_fast(self) -> (r: Self)
        ensures
            r == (JudgeOptions { fail_fast: false, ..self }),
    {
        self.fail_fast(false)
    }

    /// Set whether the address-space rlimit and seccomp install are skipped.
    pub fn no_startup_limits(self, no_startup_limits: bool) -> (r: Self)
        ensures
            r == (JudgeOptions { no_startup_limits, ..self }),
    {
        JudgeOptions { no_startup_limits, ..self }
    }
}

impl Default for JudgeOptions {
    /// One second of wall clock, 128 MiB of memory, fail-fast judging, and
    /// the full sandbox.
    fn default() -> (r: Self)
        ensures
            r == JudgeOptions::spec_default(),
    {
        JudgeOptions {
            time_limit: DEFAULT_TIME_LIMIT_MS,
            memory_limit: DEFAULT_MEMORY_LIMIT_BYTES,
            fail_fast: true,
            no_startup_limits: false,
            unsafe_mode: false,
        }
    }
}

/// One test case: a path to a pre-existing input file and a path to the
/// expected output it should produce.
pub struct TestCase<I, O> {
    pub input_file: I,
    pub expected_output_file: O,
}

} // verus!
