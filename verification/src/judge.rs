//! The verdict model and the judge supervisor.
//!
//! The supervisor is a state machine owning a running child process.  Each
//! poll either observes the child still running — then a memory sample is
//! folded into the peak and both budgets are checked, killing the child on
//! overrun — or observes its exit and classifies it.  A successful
//! exit is held against the expected output, a signal death is classified
//! by its signal, and a non-zero exit code becomes a runtime error.  The host
//! drives the machine by feeding it one [`PollEvent`] per poll and performing
//! the kill whenever the outcome asks for it.

use vstd::prelude::*;

use crate::compare::spec_outputs_match;
use crate::compare::outputs_match;

verus! {

/// Signal number of an illegal-instruction fault.
pub const SIGILL: i32 = 4;

/// Signal number of a bus-error fault.
pub const SIGBUS: i32 = 7;

/// Signal number of a segmentation fault.
pub const SIGSEGV: i32 = 11;

/// The verdict of one judged test case.
#[derive(Debug, Clone)]
pub enum JudgeStatus {
    /// The program exited cleanly and its output matched the expected output.
    Accepted,
    /// The program exited cleanly but its output differed.
    WrongAnswer,
    /// The program outlived the wall-clock budget and was killed.
    TimeLimitExceeded,
    /// The program's resident set outgrew the memory budget and it was killed.
    MemoryLimitExceeded,
    /// The program exited with a non-zero code.
    RuntimeError { code: i32, stderr: String },
    /// The toolchain rejected the source; the message carries its diagnostics.
    CompileError { message: String },
    /// The program was killed by a signal other than a memory-fault signal.
    SystemError { code: i32, stderr: String, signal: i32 },
    /// The program was killed by a memory-fault signal.
    SegmentFault { code: i32, stderr: String },
}

/// The outcome of one judged test case: a verdict, the elapsed wall-clock
/// time in milliseconds, and the peak observed resident-set size in bytes.
#[derive(Debug, Clone)]
pub struct JudgeResult {
    pub status: JudgeStatus,
    pub time_used: u64,
    pub memory_used: u64,
}

impl JudgeResult {
    /// Whether the verdict is `Accepted`.
    pub fn is_accepted(&self) -> (r: bool)
        ensures
            r == (self.status is Accepted),
    {
        matches!(self.status, JudgeStatus::Accepted)
    }

    /// Whether the verdict is anything other than `Accepted`.
    pub fn is_wrong_answer(&self) -> (r: bool)
        ensures
            r == !(self.status is Accepted),
    {
        !self.is_accepted()
    }

    /// A field-for-field copy.
    pub fn duplicate(&self) -> (r: JudgeResult)
        ensures
            r == *self,
    {
        JudgeResult {
            status: match &self.status {
                JudgeStatus::Accepted => JudgeStatus::Accepted,
                JudgeStatus::WrongAnswer => JudgeStatus::WrongAnswer,
                JudgeStatus::TimeLimitExceeded => JudgeStatus::TimeLimitExceeded,
                JudgeStatus::MemoryLimitExceeded => JudgeStatus::MemoryLimitExceeded,
                JudgeStatus::RuntimeError { code, stderr } => JudgeStatus::RuntimeError {
                    code: *code,
                    stderr: stderr.clone(),
                },
                JudgeStatus::CompileError { message } => JudgeStatus::CompileError {
                    message: message.clone(),
                },
                JudgeStatus::SystemError { code, stderr, signal } => JudgeStatus::SystemError {
                    code: *code,
                    stderr: stderr.clone(),
                    signal: *signal,
                },
                JudgeStatus::SegmentFault { code, stderr } => JudgeStatus::SegmentFault {
                    code: *code,
                    stderr: stderr.clone(),
                },
            },
            time_used: self.time_used,
            memory_used: self.memory_used,
        }
    }
}

impl Default for JudgeResult {
    /// An accepted verdict with no time and no memory charged.
    fn default() -> (r: Self)
        ensures
            r.status is Accepted,
            r.time_used == 0,
            r.memory_used == 0,
    {
        JudgeResult { status: JudgeStatus::Accepted, time_used: 0, memory_used: 0 }
    }
}

/// The supervisor's state: the two budgets it enforces and the peak memory
/// and elapsed time it has recorded so far.
pub struct Judge {
    /// Wall-clock budget in milliseconds.
    pub time_limit: u64,
    /// Resident-set budget in bytes.
    pub memory_limit: u64,
    /// Peak resident-set size observed so far, in bytes.
    pub memory_used: u64,
    /// Elapsed wall-clock time at the terminal event, in milliseconds.
    pub time_used: u64,
}

/// What one poll of the child observed.  Elapsed times are wall-clock
/// milliseconds since the child was spawned.
pub enum PollEvent {
    /// The child is still alive; `memory_sample` is its current resident-set
    /// size, or `None` when the sample could not be read.
    Running { memory_sample: Option<u64>, elapsed: u64 },
    /// The child exited successfully; `output` is what it wrote and
    /// `expected` is the case's expected output.
    ExitedOk { output: Vec<u8>, expected: Vec<u8>, elapsed: u64 },
    /// The child exited unsuccessfully: by signal when `signal` is set, else
    /// with the non-zero exit code `code`.
    ExitedErr { code: i32, signal: Option<i32>, stderr: String, elapsed: u64 },
}

/// What the host must do after a poll.
pub enum PollOutcome {
    /// Nothing yet: re-arm the poll promptly.
    Pending,
    /// The case is decided.  When `kill_child` is set the child is still
    /// alive and must be killed and reaped before the result is reported.
    Finished { kill_child: bool, result: JudgeResult },
}

/// The peak resident-set size after folding in one optional sample.
pub open spec fn spec_peak_memory(current: u64, sample: Option<u64>) -> u64 {
    match sample {
        Some(s) => if s > current {
            s
        } else {
            current
        },
        None => current,
    }
}

/// Whether a signal indicates a memory fault.
pub open spec fn spec_is_fault_signal(signal: i32) -> bool {
    signal == SIGSEGV || signal == SIGBUS || signal == SIGILL
}

/// The verdict for an unsuccessful exit: a memory-fault signal is a segment
/// fault, any other signal a system error, a plain non-zero exit code a
/// runtime error.
pub open spec fn spec_exit_status(code: i32, signal: Option<i32>, stderr: String) -> JudgeStatus {
    match signal {
        Some(s) => if spec_is_fault_signal(s) {
            JudgeStatus::SegmentFault { code, stderr }
        } else {
            JudgeStatus::SystemError { code, stderr, signal: s }
        },
        None => JudgeStatus::RuntimeError { code, stderr },
    }
}

/// One transition of the supervisor state machine: the state after the poll
/// and what the host must do.
///
/// While the child runs, the memory sample is folded into the peak first;
/// a peak above the memory budget ends the case as `MemoryLimitExceeded`,
/// then an elapsed time above the wall-clock budget ends it as
/// `TimeLimitExceeded`, in both cases killing the child.  An observed exit
/// ends the case with the verdict the observation determines.
pub open spec fn spec_poll_step(j: Judge, event: PollEvent) -> (Judge, PollOutcome) {
    match event {
        PollEvent::Running { memory_sample, elapsed } => {
            let mem = spec_peak_memory(j.memory_used, memory_sample);
            if mem > j.memory_limit {
                (
                    Judge { memory_used: mem, time_used: elapsed, ..j },
                    PollOutcome::Finished {
                        kill_child: true,
                        result: JudgeResult {
                            status: JudgeStatus::MemoryLimitExceeded,
                            time_used: elapsed,
                            memory_used: mem,
                        },
                    },
                )
            } else if elapsed > j.time_limit {
                (
                    Judge { memory_used: mem, time_used: elapsed, ..j },
                    PollOutcome::Finished {
                        kill_child: true,
                        result: JudgeResult {
                            status: JudgeStatus::TimeLimitExceeded,
                            time_used: elapsed,
                            memory_used: mem,
                        },
                    },
                )
            } else {
                (Judge { memory_used: mem, ..j }, PollOutcome::Pending)
            }
        },
        PollEvent::ExitedOk { output, expected, elapsed } => (
            Judge { time_used: elapsed, ..j },
            PollOutcome::Finished {
                kill_child: false,
                result: JudgeResult {
                    status: if spec_outputs_match(output@, expected@) {
                        JudgeStatus::Accepted
                    } else {
                        JudgeStatus::WrongAnswer
                    },
                    time_used: elapsed,
                    memory_used: j.memory_used,
                },
            },
        ),
        PollEvent::ExitedErr { code, signal, stderr, elapsed } => (
            Judge { time_used: elapsed, ..j },
            PollOutcome::Finished {
                kill_child: false,
                result: JudgeResult {
                    status: spec_exit_status(code, signal, stderr),
                    time_used: elapsed,
                    memory_used: j.memory_used,
                },
            },
        ),
    }
}

impl Judge {
    /// A fresh supervisor for one case, with nothing observed yet.
    pub fn new(time_limit: u64, memory_limit: u64) -> (j: Judge)
        ensures
            j == (Judge { time_limit, memory_limit, memory_used: 0, time_used: 0 }),
    {
        Judge { time_limit, memory_limit, memory_used: 0, time_used: 0 }
    }

    /// Feed the supervisor one poll observation and take its decision.
    pub fn poll_step(&mut self, event: PollEvent) -> (r: PollOutcome)
        ensures
            (*final(self), r) == spec_poll_step(*old(self), event),
    {
        match event {
            PollEvent::Running { memory_sample, elapsed } => {
                match memory_sample {
                    Some(s) => {
                        if s > self.memory_used {
                            self.memory_used = s;
                        }
                    },
                    None => {},
                }
                if self.memory_used > self.memory_limit {
                    self.time_used = elapsed;
                    PollOutcome::Finished {
                        kill_child: true,
                        result: JudgeResult {
                            status: JudgeStatus::MemoryLimitExceeded,
                            time_used: elapsed,
                            memory_used: self.memory_used,
                        },
                    }
                } else if elapsed > self.time_limit {
                    self.time_used = elapsed;
                    PollOutcome::Finished {
                        kill_child: true,
                        result: JudgeResult {
                            status: JudgeStatus::TimeLimitExceeded,
                            time_used: elapsed,
                            memory_used: self.memory_used,
                        },
                    }
                } else {
                    PollOutcome::Pending
                }
            },
            PollEvent::ExitedOk { output, expected, elapsed } => {
                self.time_used = elapsed;
                let matched = outputs_match(&output, &expected);
                PollOutcome::Finished {
                    kill_child: false,
                    result: JudgeResult {
                        status: if matched {
                            JudgeStatus::Accepted
                        } else {
                            JudgeStatus::WrongAnswer
                        },
                        time_used: elapsed,
                        memory_used: self.memory_used,
                    },
                }
            },
            PollEvent::ExitedErr { code, signal, stderr, elapsed } => {
                self.time_used = elapsed;
                let status = match signal {
                    Some(s) => {
                        if s == SIGSEGV || s == SIGBUS || s == SIGILL {
                            JudgeStatus::SegmentFault { code, stderr }
                        } else {
                            JudgeStatus::SystemError { code, stderr, signal: s }
                        }
                    },
                    None => JudgeStatus::RuntimeError { code, stderr },
                };
                PollOutcome::Finished {
                    kill_child: false,
                    result: JudgeResult {
                        status,
                        time_used: elapsed,
                        memory_used: self.memory_used,
                    },
                }
            },
        }
    }
}

/// While the case is still undecided, the recorded peak memory never exceeds
/// the memory budget, and the budgets themselves never change: each poll
/// either keeps the peak within bounds or ends the case at once.
pub proof fn lemma_pending_memory_within_limit(j: Judge, event: PollEvent)
    requires
        j.memory_used <= j.memory_limit,
        spec_poll_step(j, event).1 is Pending,
    ensures
        spec_poll_step(j, event).0.memory_used <= spec_poll_step(j, event).0.memory_limit,
        spec_poll_step(j, event).0.memory_limit == j.memory_limit,
        spec_poll_step(j, event).0.time_limit == j.time_limit,
{
}

/// The recorded peak memory never decreases: the supervisor observes its
/// samples in time order and `memory_used` is their running maximum.
pub proof fn lemma_memory_peak_monotonic(j: Judge, event: PollEvent)
    ensures
        spec_poll_step(j, event).0.memory_used >= j.memory_used,
{
}

/// An accepted case stays within both budgets: if the supervisor's peak
/// memory was within the memory budget — which
/// [`lemma_pending_memory_within_limit`] guarantees of every undecided state —
/// and the exit was observed within the wall-clock budget, then the reported
/// result satisfies `time_used <= time_limit` and
/// `memory_used <= memory_limit`.  A child that exits between the deadline
/// and the next poll is reported with its true, larger elapsed time.
pub proof fn lemma_accepted_within_limits(j: Judge, output: Vec<u8>, expected: Vec<u8>, elapsed: u64)
    requires
        j.memory_used <= j.memory_limit,
        elapsed <= j.time_limit,
    ensures
        ({
            let (j2, r) = spec_poll_step(
                j,
                PollEvent::ExitedOk { output, expected, elapsed },
            );
            r matches PollOutcome::Finished { kill_child, result } ==> {
                &&& result.time_used <= j.time_limit
                &&& result.memory_used <= j.memory_limit
            }
        }),
{
}

/// A memory overrun ends the case at once: as soon as a sample lifts the
/// peak above the memory budget, the child is killed and the verdict is
/// `MemoryLimitExceeded` carrying that peak.
pub proof fn lemma_memory_overrun_killed(j: Judge, sample: u64, elapsed: u64)
    requires
        spec_peak_memory(j.memory_used, Some(sample)) > j.memory_limit,
    ensures
        ({
            let (j2, r) = spec_poll_step(
                j,
                PollEvent::Running { memory_sample: Some(sample), elapsed },
            );
            r matches PollOutcome::Finished { kill_child, result } && kill_child
                && result.status is MemoryLimitExceeded && result.memory_used
                == spec_peak_memory(j.memory_used, Some(sample)) && result.time_used == elapsed
        }),
{
}

/// A wall-clock overrun ends the case at once: when the child is seen still
/// running past the time budget (and not over the memory budget, which takes
/// precedence), it is killed and the verdict is `TimeLimitExceeded` carrying
/// the elapsed time.
pub proof fn lemma_time_overrun_killed(j: Judge, sample: Option<u64>, elapsed: u64)
    requires
        spec_peak_memory(j.memory_used, sample) <= j.memory_limit,
        elapsed > j.time_limit,
    ensures
        ({
            let (j2, r) = spec_poll_step(
                j,
                PollEvent::Running { memory_sample: sample, elapsed },
            );
            r matches PollOutcome::Finished { kill_child, result } && kill_child
                && result.status is TimeLimitExceeded && result.time_used == elapsed
        }),
{
}

/// A death by `SIGSEGV`, `SIGBUS` or `SIGILL` is reported as `SegmentFault`;
/// a death by any other signal as `SystemError` carrying that signal; a
/// plain non-zero exit as `RuntimeError`.
pub proof fn lemma_signal_classification(code: i32, signal: Option<i32>, stderr: String)
    ensures
        signal matches Some(s) ==> spec_exit_status(code, signal, stderr) == (if spec_is_fault_signal(
            s,
        ) {
            JudgeStatus::SegmentFault { code, stderr }
        } else {
            JudgeStatus::SystemError { code, stderr, signal: s }
        }),
        signal is None ==> spec_exit_status(code, signal, stderr) == (JudgeStatus::RuntimeError {
            code,
            stderr,
        }),
{
}

/// The verdict of a successful exit depends only on the bytes of the two
/// outputs: two runs of the same case whose programs produced the same bytes
/// get the same verdict, whatever memory peaks or elapsed times the two
/// supervisors recorded.
pub proof fn lemma_verdict_deterministic(
    j1: Judge,
    j2: Judge,
    o1: Vec<u8>,
    x1: Vec<u8>,
    e1: u64,
    o2: Vec<u8>,
    x2: Vec<u8>,
    e2: u64,
)
    requires
        o1@ == o2@,
        x1@ == x2@,
    ensures
        ({
            let (_, r1) = spec_poll_step(j1, PollEvent::ExitedOk { output: o1, expected: x1, elapsed: e1 });
            let (_, r2) = spec_poll_step(j2, PollEvent::ExitedOk { output: o2, expected: x2, elapsed: e2 });
            r1 matches PollOutcome::Finished { result: res1, .. } && r2 matches PollOutcome::Finished {
                result: res2,
                ..
            } && (res1.status is Accepted <==> res2.status is Accepted) && (res1.status
                is WrongAnswer <==> res2.status is WrongAnswer)
        }),
{
}

/// The aggregate of a submission's per-case results: the first non-accepted
/// result verbatim if there is one, else an accepted result charging the
/// maximum time and the maximum memory over all cases.
pub open spec fn spec_overall(results: Seq<JudgeResult>, acc: JudgeResult) -> JudgeResult
    decreases results.len(),
{
    if results.len() == 0 {
        acc
    } else if !(results[0].status is Accepted) {
        results[0]
    } else {
        spec_overall(
            results.skip(1),
            JudgeResult {
                status: acc.status,
                time_used: if results[0].time_used > acc.time_used {
                    results[0].time_used
                } else {
                    acc.time_used
                },
                memory_used: if results[0].memory_used > acc.memory_used {
                    results[0].memory_used
                } else {
                    acc.memory_used
                },
            },
        )
    }
}

/// Fold a submission's per-case results into one overall result: the first
/// non-accepted result wins verbatim; an all-accepted run is summarised as
/// `Accepted` with the maximum time and memory over the cases.
pub fn overall_result(results: &Vec<JudgeResult>) -> (r: JudgeResult)
    ensures
        r == spec_overall(
            results@,
            JudgeResult { status: JudgeStatus::Accepted, time_used: 0, memory_used: 0 },
        ),
{
    let mut acc = JudgeResult { status: JudgeStatus::Accepted, time_used: 0, memory_used: 0 };
    let mut i: usize = 0;
    let ghost start = JudgeResult { status: JudgeStatus::Accepted, time_used: 0, memory_used: 0 };
    proof {
        assert(results@.skip(0) =~= results@);
    }
    while i < results.len()
        invariant
            i <= results@.len(),
            acc.status is Accepted,
            start == (JudgeResult { status: JudgeStatus::Accepted, time_used: 0, memory_used: 0 }),
            spec_overall(results@, start) == spec_overall(results@.skip(i as int), acc),
        decreases results@.len() - i,
    {
        proof {
            assert(results@.skip(i as int)[0] == results@[i as int]);
            assert(results@.skip(i as int).skip(1) =~= results@.skip(i as int + 1));
        }
        let current = &results[i];
        if !current.is_accepted() {
            proof {
                assert(results@.skip(i as int).len() > 0);
                assert(spec_overall(results@.skip(i as int), acc) == results@[i as int]);
            }
            return current.duplicate();
        }
        if current.time_used > acc.time_used {
            acc.time_used = current.time_used;
        }
        if current.memory_used > acc.memory_used {
            acc.memory_used = current.memory_used;
        }
        i = i + 1;
    }
    proof {
        assert(results@.skip(i as int) =~= Seq::<JudgeResult>::empty());
    }
    acc
}

} // verus!
