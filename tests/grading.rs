use grader_orchestration::fixtures::TestFixture;
use grader_orchestration::fuzz::{failed_run_crash, FuzzResult};
use grader_orchestration::grading::{
    aggregate_score, calculate_base_score, calculate_final_score, compile_config, compile_failure,
    get_compile_command, get_compile_command_with_args, get_file_extension, get_run_command, needs_manifest,
    runs_suite_at_once, source_file_name, suite_config, summary_line, test_config, test_passed, TestSuiteResult,
};
use grader_orchestration::json::JsonValue;
use grader_orchestration::sandbox::ExecutionResult;

fn run(success: bool, exit_code: Option<i32>) -> ExecutionResult {
    ExecutionResult {
        success,
        exit_code,
        stdout: String::new(),
        stderr: String::new(),
        execution_time: 1,
        memory_used: 0,
        gas_used: 300,
        trace_events: vec![],
    }
}

fn passing_suite(n: u64) -> TestSuiteResult {
    let mut s = TestSuiteResult::new(n);
    for _ in 0..n {
        s.record(true, run(true, Some(0)));
    }
    s
}

#[test]
fn commands_per_language() {
    assert_eq!(get_compile_command("rust"), "cargo");
    assert_eq!(get_compile_command("solidity"), "solc");
    assert_eq!(get_compile_command("go"), "echo");
    assert_eq!(get_compile_command_with_args("rust"), ("cargo".to_string(), vec!["build".to_string(), "--release".to_string()]));
    assert_eq!(get_compile_command_with_args("solidity"), ("forge".to_string(), vec!["build".to_string()]));
    assert_eq!(get_compile_command_with_args("python"), ("echo".to_string(), vec!["compiled".to_string()]));
    assert_eq!(get_run_command("rust"), "./target/release/grader-code");
    assert_eq!(get_run_command("solidity"), "forge test");
    assert_eq!(get_run_command("move"), "echo");
}

#[test]
fn source_files_per_language() {
    assert_eq!(get_file_extension("javascript"), ".js");
    assert_eq!(get_file_extension("python"), ".py");
    assert_eq!(get_file_extension("cobol"), ".txt");
    assert_eq!(source_file_name("rust"), "main.rs");
    assert_eq!(source_file_name("solidity"), "Contract.sol");
    assert_eq!(source_file_name("python"), "code.py");
    assert!(needs_manifest("rust"));
    assert!(!needs_manifest("python"));
    assert!(runs_suite_at_once("solidity"));
}

#[test]
fn stage_limits() {
    let c = compile_config();
    assert_eq!(c.time_limit_ms, 60_000);
    assert_eq!(c.memory_limit, 1 << 30);
    assert_eq!(c.disk_quota, 500 << 20);
    assert_eq!(suite_config().time_limit_ms, 300_000);
    let f = TestFixture {
        id: "a".to_string(),
        name: String::new(),
        description: String::new(),
        input: JsonValue::Null,
        expected_output: JsonValue::Null,
        hidden: false,
        timeout: 30,
        gas_limit: 1,
    };
    assert_eq!(test_config(&f, 5).time_limit_ms, 5_000);
    assert_eq!(test_config(&f, 60).time_limit_ms, 30_000);
    assert_eq!(test_config(&f, 60).memory_limit, 512 << 20);
    assert_eq!(test_config(&f, u64::MAX).time_limit_ms, 30_000);
}

#[test]
fn pass_rule() {
    assert!(test_passed("rust", &run(true, Some(0))));
    assert!(!test_passed("rust", &run(false, Some(1))));
    assert!(!test_passed("rust", &run(true, None)));
    assert!(test_passed("solidity", &run(true, None)));
}

#[test]
fn suite_accounting() {
    let mut s = TestSuiteResult::new(3);
    s.record(true, run(true, Some(0)));
    s.record(false, run(false, Some(1)));
    assert_eq!(s.passed, 1);
    assert_eq!(s.total, 3);
    assert_eq!(s.gas_used, 600);
    let all = TestSuiteResult::from_single_run(4, run(true, Some(0)));
    assert_eq!(all.passed, 4);
    let none = TestSuiteResult::from_single_run(4, run(false, Some(1)));
    assert_eq!(none.passed, 0);
}

#[test]
fn compile_failure_scores_zero() {
    let g = compile_failure(300);
    assert_eq!(g.score, 0);
    assert_eq!(g.total_tests, 0);
    assert_eq!(g.passed_tests, 0);
    assert!(!g.success);
}

#[test]
fn all_pass_with_one_crash() {
    let public = passing_suite(4);
    let hidden = passing_suite(4);
    let mut fuzz = FuzzResult::empty();
    fuzz.crashes_found.push(failed_run_crash(JsonValue::Null, "boom".to_string()));
    let g = aggregate_score(&public, &hidden, &fuzz, 300);
    assert_eq!(g.base_score, 100);
    assert_eq!(g.score, 95);
    assert!(g.success);
    assert_eq!(g.passed_tests, 8);
    assert_eq!(g.total_tests, 8);
    assert_eq!(g.gas_used, 300 + 8 * 300);
}

#[test]
fn score_bounds_and_threshold() {
    assert_eq!(calculate_base_score(0, 0), 0);
    assert_eq!(calculate_base_score(2, 3), 66);
    assert_eq!(calculate_base_score(7, 10), 70);
    assert_eq!(calculate_final_score(70, 0), 70);
    assert_eq!(calculate_final_score(70, 1), 65);
    assert_eq!(calculate_final_score(10, 3), 0);
    assert_eq!(calculate_final_score(100, u64::MAX), 0);
    let public = TestSuiteResult::new(10);
    let mut hidden = TestSuiteResult::new(0);
    hidden.record(false, run(false, None));
    let g = aggregate_score(&public, &hidden, &FuzzResult::empty(), 0);
    assert_eq!(g.score, 0);
    assert!(!g.success);
}

#[test]
fn report_summary_line() {
    let mut public = TestSuiteResult::new(12);
    for _ in 0..10 {
        public.record(true, run(true, Some(0)));
    }
    let hidden = TestSuiteResult::new(0);
    let mut fuzz = FuzzResult::empty();
    fuzz.crashes_found.push(failed_run_crash(JsonValue::Null, "x".to_string()));
    assert_eq!(summary_line(&public, &hidden, &fuzz), "Public: 10/12, Hidden: 0/0, Fuzz: 1 crashes");
}
