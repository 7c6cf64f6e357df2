//! The sandbox preamble, as a plan.
//!
//! Between fork and exec the child may run only async-signal-safe code, so
//! the host's pre-exec hook must be a dumb interpreter.  This module computes
//! the exact ordered sequence of isolation steps the hook performs — file
//! descriptor scrubbing, privilege-gain disable, mount-namespace detach,
//! resource limits, seccomp install — from the judge options, and compiles
//! the seccomp write policy itself.

use vstd::prelude::*;

use crate::config::JudgeOptions;
use seccompiler::SeccompCmpArgLen;
use seccompiler::SeccompCmpOp;
use seccompiler::SeccompCondition;
use seccompiler::SeccompRule;

verus! {

/// seccompiler's BPF instruction type, opaque to the verifier.
#[verifier::external_type_specification]
#[verifier::external_body]
pub struct ExSockFilter(seccompiler::sock_filter);

/// The syscall number of `write` on x86-64 Linux.
pub const WRITE_SYSCALL_X86_64: i64 = 1;

/// The standard-output file descriptor.
pub const STDOUT_FD: u64 = 1;

/// The standard-error file descriptor.
pub const STDERR_FD: u64 = 2;

/// The sandbox's write policy: a `write` is allowed only on standard output
/// and standard error; on any other file descriptor the process is killed.
pub open spec fn spec_write_fd_allowed(fd: u64) -> bool {
    fd == STDOUT_FD || fd == STDERR_FD
}

/// Whether the seccomp policy lets the child `write` to this descriptor.
pub fn write_fd_allowed(fd: u64) -> (r: bool)
    ensures
        r == spec_write_fd_allowed(fd),
{
    fd == STDOUT_FD || fd == STDERR_FD
}

/// The BPF program seccompiler compiles, for x86-64, from the policy "allow
/// everything, but kill the process on `write_syscall` when its first
/// argument differs from both `fd_a` and `fd_b`".  The compilation is a pure
/// function of these three values.
pub uninterp spec fn write_policy_bpf(write_syscall: i64, fd_a: u64, fd_b: u64) -> Seq<
    seccompiler::sock_filter,
>;

/// Relies on seccompiler (`SeccompCondition::new`, `SeccompRule::new`,
/// `SeccompFilter::new` and the filter's compilation to BPF): builds, for
/// x86-64, the program of [`write_policy_bpf`].  The syscall number must fit
/// in 32 bits: seccompiler's BPF conversion unwraps that narrowing.  Within
/// that range every step of this construction returns `Ok` — the conditions
/// compare argument 0, the rule is non-empty, the two actions differ, and the
/// program is far below the BPF length cap — so the result is always `Some`.
#[verifier::external_body]
fn build_write_filter(write_syscall: i64, fd_a: u64, fd_b: u64) -> (r: Option<
    Vec<seccompiler::sock_filter>,
>)
    requires
        0 <= write_syscall <= u32::MAX,
    ensures
        r is Some,
        r->Some_0@ == write_policy_bpf(write_syscall, fd_a, fd_b),
{
    let conditions = vec![
        SeccompCondition::new(0, SeccompCmpArgLen::Dword, SeccompCmpOp::Ne, fd_a).ok()?,
        SeccompCondition::new(0, SeccompCmpArgLen::Dword, SeccompCmpOp::Ne, fd_b).ok()?,
    ];
    let rule = SeccompRule::new(conditions).ok()?;
    let filter = seccompiler::SeccompFilter::new(
        vec![(write_syscall, vec![rule])].into_iter().collect(),
        seccompiler::SeccompAction::Allow,
        seccompiler::SeccompAction::KillProcess,
        seccompiler::TargetArch::x86_64,
    ).ok()?;
    filter.try_into().ok()
}

/// The seccomp program the sandbox installs: every syscall is allowed except
/// a `write` to a descriptor other than standard output and standard error,
/// which kills the process.
pub fn seccomp_filter() -> (r: Option<Vec<seccompiler::sock_filter>>)
    ensures
        r matches Some(p) && p@ == write_policy_bpf(WRITE_SYSCALL_X86_64, STDOUT_FD, STDERR_FD),
{
    build_write_filter(WRITE_SYSCALL_X86_64, STDOUT_FD, STDERR_FD)
}

/// One isolation step of the sandbox preamble, in the child between fork and
/// exec.
#[derive(Debug, Clone, Copy, PartialEq, Eq, Structural)]
pub enum SandboxStep {
    /// Close every file descriptor in `[lowest, highest)`; the standard
    /// descriptors below stay redirected to the case files.
    CloseFileDescriptors { lowest: i32, highest: i32 },
    /// Forbid gaining privileges through setuid binaries or file
    /// capabilities; a prerequisite for unprivileged seccomp.
    DisablePrivilegeGain,
    /// Detach the child's mount namespace.
    DetachMountNamespace,
    /// Cap the child's address space, soft and hard, in bytes.
    LimitAddressSpace { bytes: u64 },
    /// Install the seccomp program of [`seccomp_filter`].
    InstallWriteFilter,
    /// Cap the number of processes the child's user may add.
    LimitProcesses { limit: u64 },
    /// Cap the child's CPU time, in whole seconds.
    LimitCpuSeconds { seconds: u64 },
    /// Forbid core dumps.
    ForbidCoreDumps,
    /// Exec with an empty environment.
    ClearEnvironment,
    /// Run with the workspace as working directory.
    EnterWorkspace,
}

/// The ordered sandbox preamble for the given options: descriptors are
/// scrubbed and privilege gain disabled always; the mount namespace is
/// detached unless `unsafe_mode`; the address-space limit and the seccomp
/// filter are applied unless `no_startup_limits`; the process, CPU-time and
/// core limits, the empty environment and the workspace working directory
/// apply always.  The CPU budget is the wall-clock budget in whole seconds.
pub open spec fn spec_sandbox_plan(options: JudgeOptions) -> Seq<SandboxStep> {
    seq![
        SandboxStep::CloseFileDescriptors { lowest: 3, highest: 1024 },
        SandboxStep::DisablePrivilegeGain,
    ] + (if !options.unsafe_mode {
        seq![SandboxStep::DetachMountNamespace]
    } else {
        Seq::<SandboxStep>::empty()
    }) + (if !options.no_startup_limits {
        seq![
            SandboxStep::LimitAddressSpace { bytes: options.memory_limit },
            SandboxStep::InstallWriteFilter,
        ]
    } else {
        Seq::<SandboxStep>::empty()
    }) + seq![
        SandboxStep::LimitProcesses { limit: 0 },
        SandboxStep::LimitCpuSeconds { seconds: options.time_limit / 1000 },
        SandboxStep::ForbidCoreDumps,
        SandboxStep::ClearEnvironment,
        SandboxStep::EnterWorkspace,
    ]
}

/// The sandbox preamble to run in the child, in order.
pub fn sandbox_plan(options: &JudgeOptions) -> (steps: Vec<SandboxStep>)
    ensures
        steps@ == spec_sandbox_plan(*options),
{
    let mut steps: Vec<SandboxStep> = Vec::new();
    steps.push(SandboxStep::CloseFileDescriptors { lowest: 3, highest: 1024 });
    steps.push(SandboxStep::DisablePrivilegeGain);
    if !options.unsafe_mode {
        steps.push(SandboxStep::DetachMountNamespace);
    }
    if !options.no_startup_limits {
        steps.push(SandboxStep::LimitAddressSpace { bytes: options.memory_limit });
        steps.push(SandboxStep::InstallWriteFilter);
    }
    steps.push(SandboxStep::LimitProcesses { limit: 0 });
    steps.push(SandboxStep::LimitCpuSeconds { seconds: options.time_limit / 1000 });
    steps.push(SandboxStep::ForbidCoreDumps);
    steps.push(SandboxStep::ClearEnvironment);
    steps.push(SandboxStep::EnterWorkspace);
    proof {
        assert(steps@ =~= spec_sandbox_plan(*options));
    }
    steps
}

/// Under the default sandbox — neither unsafe mode nor suppressed startup
/// limits — the preamble detaches the mount namespace, caps the address
/// space at the memory budget, and installs the write filter, and the
/// privilege-gain disable comes before the filter install.
pub proof fn lemma_default_sandbox_fully_armed(options: JudgeOptions)
    requires
        !options.unsafe_mode,
        !options.no_startup_limits,
    ensures
        spec_sandbox_plan(options)[1] == SandboxStep::DisablePrivilegeGain,
        spec_sandbox_plan(options)[2] == SandboxStep::DetachMountNamespace,
        spec_sandbox_plan(options)[3] == (SandboxStep::LimitAddressSpace {
            bytes: options.memory_limit,
        }),
        spec_sandbox_plan(options)[4] == SandboxStep::InstallWriteFilter,
        spec_sandbox_plan(options).contains(SandboxStep::InstallWriteFilter),
{
    assert(spec_sandbox_plan(options)[4] == SandboxStep::InstallWriteFilter);
}

/// With startup limits suppressed the preamble neither caps the address
/// space nor installs the write filter; with unsafe mode it does not detach
/// the mount namespace.
pub proof fn lemma_suppressed_steps_absent(options: JudgeOptions)
    ensures
        options.no_startup_limits ==> forall|i: int|
            0 <= i < spec_sandbox_plan(options).len() ==> !(#[trigger] spec_sandbox_plan(options)[i]
                is InstallWriteFilter) && !(spec_sandbox_plan(options)[i] is LimitAddressSpace),
        options.unsafe_mode ==> forall|i: int|
            0 <= i < spec_sandbox_plan(options).len() ==> !(#[trigger] spec_sandbox_plan(options)[i]
                is DetachMountNamespace),
{
}

} // verus!
