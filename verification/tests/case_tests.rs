use eval_stack::case::{
    compile_failure_results, interpreter_name, runtime_args, u64_to_string, CaseSession,
};
use eval_stack::compile::Language;
use eval_stack::judge::{JudgeResult, JudgeStatus};

fn accepted() -> JudgeResult {
    JudgeResult { status: JudgeStatus::Accepted, time_used: 10, memory_used: 100 }
}

fn wrong() -> JudgeResult {
    JudgeResult { status: JudgeStatus::WrongAnswer, time_used: 10, memory_used: 100 }
}

#[test]
fn without_fail_fast_every_case_is_recorded() {
    let mut session = CaseSession::new(false);
    for verdict in [accepted(), wrong(), accepted(), wrong()] {
        assert!(!session.is_halted());
        session.record(verdict);
    }
    assert!(!session.is_halted());
    let results = session.finish();
    assert_eq!(results.len(), 4);
}

#[test]
fn fail_fast_halts_at_the_first_rejection() {
    // Two cases where the second expected output is wrong: the report has
    // length two and ends with the rejection; no third case runs.
    let mut session = CaseSession::new(true);
    session.record(accepted());
    assert!(!session.is_halted());
    session.record(wrong());
    assert!(session.is_halted());
    let results = session.finish();
    assert_eq!(results.len(), 2);
    assert!(results[0].is_accepted());
    assert!(matches!(results[1].status, JudgeStatus::WrongAnswer));
}

#[test]
fn fail_fast_keeps_going_while_accepted() {
    let mut session = CaseSession::new(true);
    session.record(accepted());
    session.record(accepted());
    assert!(!session.is_halted());
    let results = session.finish();
    assert_eq!(results.len(), 2);
    assert!(results.iter().all(|r| r.is_accepted()));
}

#[test]
fn compile_failure_is_a_single_verdict_with_the_diagnostics() {
    let results = compile_failure_results("main.c:1:1: error: expected expression");
    assert_eq!(results.len(), 1);
    assert_eq!(results[0].time_used, 0);
    assert_eq!(results[0].memory_used, 0);
    match &results[0].status {
        JudgeStatus::CompileError { message } => {
            assert!(message.contains("main.c:1:1: error: expected expression"));
            assert_eq!(
                message,
                "Failed to compile source code: main.c:1:1: error: expected expression"
            );
        }
        other => panic!("expected a compile error, got {:?}", other),
    }
}

#[test]
fn decimal_rendering_is_exact() {
    assert_eq!(u64_to_string(0), "0");
    assert_eq!(u64_to_string(7), "7");
    assert_eq!(u64_to_string(10), "10");
    assert_eq!(u64_to_string(134217728), "134217728");
    assert_eq!(u64_to_string(u64::MAX), "18446744073709551615");
}

#[test]
fn interpreter_lookup_table() {
    assert_eq!(interpreter_name(Language::Python), Some("python"));
    assert_eq!(interpreter_name(Language::NodeJs), Some("deno"));
    assert_eq!(interpreter_name(Language::Java), Some("java"));
    assert_eq!(interpreter_name(Language::C), None);
    assert_eq!(interpreter_name(Language::CPP), None);
    assert_eq!(interpreter_name(Language::Rust), None);
    assert_eq!(interpreter_name(Language::Golang), None);
}

#[test]
fn python_runtime_gets_the_source_path() {
    let args = runtime_args(Language::Python, "/ws/main.py", 128).expect("python takes arguments");
    assert_eq!(args, vec!["/ws/main.py".to_string()]);
}

#[test]
fn javascript_runtime_is_fully_denied_and_heap_capped() {
    let args =
        runtime_args(Language::NodeJs, "/ws/main.js", 134217728).expect("deno takes arguments");
    assert_eq!(
        args,
        vec![
            "run".to_string(),
            "--v8-flags=--max-old-space-size=134217728".to_string(),
            "--deny-read=*".to_string(),
            "--deny-write=*".to_string(),
            "--deny-env=*".to_string(),
            "--deny-run=*".to_string(),
            "--deny-ffi=*".to_string(),
            "/ws/main.js".to_string(),
        ]
    );
}

#[test]
fn java_runtime_runs_the_main_class() {
    let args = runtime_args(Language::Java, "/ws/Main.java", 128).expect("java takes arguments");
    assert_eq!(args, vec!["Main".to_string()]);
}

#[test]
fn compiled_languages_take_no_runtime_arguments() {
    assert!(runtime_args(Language::C, "/ws/main.c", 128).is_none());
    assert!(runtime_args(Language::Rust, "/ws/main.rs", 128).is_none());
    assert!(runtime_args(Language::Golang, "/ws/main.go", 128).is_none());
}
