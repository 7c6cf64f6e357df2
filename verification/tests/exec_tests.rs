use eval_stack::config::JudgeOptions;
use eval_stack::exec::{sandbox_plan, seccomp_filter, write_fd_allowed, SandboxStep};

#[test]
fn default_sandbox_plan_is_the_full_ordered_preamble() {
    let options = JudgeOptions::default();
    let steps = sandbox_plan(&options);
    assert_eq!(
        steps,
        vec![
            SandboxStep::CloseFileDescriptors { lowest: 3, highest: 1024 },
            SandboxStep::DisablePrivilegeGain,
            SandboxStep::DetachMountNamespace,
            SandboxStep::LimitAddressSpace { bytes: 128 * 1024 * 1024 },
            SandboxStep::InstallWriteFilter,
            SandboxStep::LimitProcesses { limit: 0 },
            SandboxStep::LimitCpuSeconds { seconds: 1 },
            SandboxStep::ForbidCoreDumps,
            SandboxStep::ClearEnvironment,
            SandboxStep::EnterWorkspace,
        ]
    );
}

#[test]
fn no_startup_limits_suppresses_address_space_cap_and_filter() {
    let options = JudgeOptions::default().no_startup_limits(true);
    let steps = sandbox_plan(&options);
    assert!(!steps.iter().any(|s| matches!(s, SandboxStep::InstallWriteFilter)));
    assert!(!steps.iter().any(|s| matches!(s, SandboxStep::LimitAddressSpace { .. })));
    assert!(steps.iter().any(|s| matches!(s, SandboxStep::DetachMountNamespace)));
    assert!(steps.iter().any(|s| matches!(s, SandboxStep::DisablePrivilegeGain)));
}

#[test]
fn unsafe_mode_suppresses_the_mount_namespace_detach() {
    let mut options = JudgeOptions::default();
    options.unsafe_mode = true;
    let steps = sandbox_plan(&options);
    assert!(!steps.iter().any(|s| matches!(s, SandboxStep::DetachMountNamespace)));
    assert!(steps.iter().any(|s| matches!(s, SandboxStep::InstallWriteFilter)));
}

#[test]
fn cpu_budget_is_the_wall_clock_budget_in_whole_seconds() {
    let mut options = JudgeOptions::default();
    options.time_limit = 2500;
    let steps = sandbox_plan(&options);
    assert!(steps
        .iter()
        .any(|s| matches!(s, SandboxStep::LimitCpuSeconds { seconds: 2 })));
}

#[test]
fn privilege_gain_is_disabled_before_the_filter_installs() {
    let steps = sandbox_plan(&JudgeOptions::default());
    let nnp = steps
        .iter()
        .position(|s| matches!(s, SandboxStep::DisablePrivilegeGain))
        .expect("the preamble always disables privilege gain");
    let filter = steps
        .iter()
        .position(|s| matches!(s, SandboxStep::InstallWriteFilter))
        .expect("the default preamble installs the filter");
    assert!(nnp < filter);
}

#[test]
fn writes_are_allowed_only_on_stdout_and_stderr() {
    assert!(write_fd_allowed(1));
    assert!(write_fd_allowed(2));
    assert!(!write_fd_allowed(0));
    assert!(!write_fd_allowed(3));
    assert!(!write_fd_allowed(255));
}

#[test]
fn the_write_filter_compiles_to_a_nonempty_program() {
    let program = seccomp_filter().expect("the policy compiles");
    assert!(!program.is_empty());
}
