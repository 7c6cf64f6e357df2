use eval_stack::config::{JudgeOptions, TestCase};
use eval_stack::engine::models::Status;

#[test]
fn defaults_are_one_second_and_128_mib_failing_fast() {
    let options = JudgeOptions::default();
    assert_eq!(options.time_limit, 1000);
    assert_eq!(options.memory_limit, 128 * 1024 * 1024);
    assert!(options.fail_fast);
    assert!(!options.no_startup_limits);
    assert!(!options.unsafe_mode);
}

#[test]
fn builders_flip_exactly_their_flag() {
    let options = JudgeOptions::default().fail_fast(false);
    assert!(!options.fail_fast);
    assert_eq!(options.time_limit, 1000);
    let options = options.fail_fast(true);
    assert!(options.fail_fast);

    let options = JudgeOptions::default().no_fail_fast();
    assert!(!options.fail_fast);
    assert!(!options.no_startup_limits);

    let options = JudgeOptions::default().no_startup_limits(true);
    assert!(options.no_startup_limits);
    assert!(options.fail_fast);
    assert_eq!(options.memory_limit, 128 * 1024 * 1024);
}

#[test]
fn a_test_case_keeps_its_two_paths() {
    let case = TestCase { input_file: "tests/1.in", expected_output_file: "tests/1.out" };
    assert_eq!(case.input_file, "tests/1.in");
    assert_eq!(case.expected_output_file, "tests/1.out");
}

#[test]
fn submission_status_round_trips_through_clone() {
    let status = Status::Judging;
    let copy = status.clone();
    assert!(matches!(copy, Status::Judging));
    assert!(matches!(Status::InQueue.clone(), Status::InQueue));
    assert!(matches!(Status::Ready.clone(), Status::Ready));
}
