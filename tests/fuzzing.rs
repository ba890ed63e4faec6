use grader_orchestration::fuzz::{
    analyze_crash, calculate_coverage_score, calculate_path_hash, classify_severity, extract_stack_trace,
    fuzz_run_config, mutate_at, mutation_sites, simple_array_variation, simple_string_variation, update_coverage,
    variation_kind, Campaign, CrashSeverity, FuzzResult, TextSet, VariationKind,
};
use grader_orchestration::json::{JsonNumber, JsonValue};
use grader_orchestration::sandbox::{ExecutionResult, SandboxError};

fn run(success: bool, exit_code: Option<i32>, stdout: &str, stderr: &str) -> ExecutionResult {
    ExecutionResult {
        success,
        exit_code,
        stdout: stdout.to_string(),
        stderr: stderr.to_string(),
        execution_time: 10,
        memory_used: 0,
        gas_used: 300,
        trace_events: vec![],
    }
}

#[test]
fn severity_first_matching_rule_wins() {
    assert_eq!(classify_severity("thread 'main' panicked"), CrashSeverity::Critical);
    assert_eq!(classify_severity("segmentation fault (core dumped)"), CrashSeverity::Critical);
    assert_eq!(classify_severity("attempt to add with overflow, panic"), CrashSeverity::Critical);
    assert_eq!(classify_severity("stack overflow"), CrashSeverity::High);
    assert_eq!(classify_severity("null pointer dereference"), CrashSeverity::High);
    assert_eq!(classify_severity("assertion failed: x == 1"), CrashSeverity::Medium);
    assert_eq!(classify_severity("exit status 3"), CrashSeverity::Low);
    assert_eq!(classify_severity(""), CrashSeverity::Low);
}

#[test]
fn stack_trace_from_marker_line() {
    let stderr = "error\nstack backtrace:\n  0: a\n  1: b\r\nafter";
    assert_eq!(extract_stack_trace(stderr), "stack backtrace:\n  0: a\n  1: b\nafter\n");
    assert_eq!(extract_stack_trace("no trace here"), "No stack trace available");
    assert_eq!(extract_stack_trace(""), "No stack trace available");
}

#[test]
fn stack_trace_keeps_twenty_lines_after_marker() {
    let mut stderr = String::from("Stack trace\n");
    for i in 0..30 {
        stderr.push_str(&format!("frame {}\n", i));
    }
    let trace = extract_stack_trace(&stderr);
    assert_eq!(trace.lines().count(), 21);
    assert!(trace.starts_with("Stack trace\nframe 0\n"));
    assert!(trace.ends_with("frame 19\n"));
}

#[test]
fn crash_message_prefers_stderr() {
    let c = analyze_crash(JsonValue::Null, &run(false, Some(101), "out", "thread panicked"));
    assert_eq!(c.error_message, "thread panicked");
    assert_eq!(c.severity, CrashSeverity::Critical);
    assert_eq!(c.stack_trace, "No stack trace available");
    assert_eq!(c.gas_used, 300);
    let c = analyze_crash(JsonValue::Null, &run(false, Some(1), "overflow", ""));
    assert_eq!(c.error_message, "overflow");
    assert_eq!(c.severity, CrashSeverity::High);
    let c = analyze_crash(JsonValue::Null, &run(false, Some(1), "", ""));
    assert_eq!(c.error_message, "Unknown crash");
    assert_eq!(c.severity, CrashSeverity::Low);
}

#[test]
fn coverage_counts_distinct_marker_lines() {
    let mut cov = TextSet::new();
    update_coverage("branch 1\nline 2\nnothing\n", "branch 1\nfunction f", &mut cov);
    assert_eq!(cov.len(), 3);
    assert_eq!(calculate_coverage_score(&cov), 3);
    update_coverage("line 2", "", &mut cov);
    assert_eq!(cov.len(), 3);
}

#[test]
fn coverage_score_is_capped() {
    let mut cov = TextSet::new();
    let mut out = String::new();
    for i in 0..1200 {
        out.push_str(&format!("line {}\n", i));
    }
    update_coverage(&out, "", &mut cov);
    assert_eq!(cov.len(), 1200);
    assert_eq!(calculate_coverage_score(&cov), 1000);
}

#[test]
fn path_hash_is_sha256_of_output_and_code() {
    assert_eq!(
        calculate_path_hash(&run(true, Some(0), "", "")),
        "df3f619804a92fdb4057192dc43dd748ea778adc52bc498ce80524c014b81119"
    );
    assert_eq!(
        calculate_path_hash(&run(true, None, "", "")),
        "df3f619804a92fdb4057192dc43dd748ea778adc52bc498ce80524c014b81119"
    );
    assert_eq!(
        calculate_path_hash(&run(false, Some(1), "ok", "err")),
        "5061826b16f1a5d008b07a914144c851cbb76e0cee0deedbad957d37648d1697"
    );
    assert_eq!(
        calculate_path_hash(&run(false, Some(-1), "x", "")),
        "db26b402b6025d39167344880568492834957137cc34123d0812fbc5b6949a31"
    );
}

#[test]
fn campaign_bookkeeping() {
    let mut c = Campaign::new();
    c.record_run(JsonValue::Null, Ok(run(true, Some(0), "line a", "")));
    c.record_run(JsonValue::Bool(true), Ok(run(true, Some(0), "line a", "")));
    c.record_run(JsonValue::Bool(false), Ok(run(false, Some(2), "", "assertion failed")));
    c.record_run(JsonValue::Null, Err(SandboxError::Timeout(vec![])));
    let r: FuzzResult = c.finish(42);
    assert_eq!(r.inputs_tested, 4);
    assert_eq!(r.unique_paths, 2);
    assert_eq!(r.coverage_score, 1);
    assert_eq!(r.execution_time, 42);
    assert_eq!(r.crashes_found.len(), 2);
    assert_eq!(r.crashes_found[0].severity, CrashSeverity::Medium);
    assert_eq!(r.crashes_found[0].error_message, "assertion failed");
    assert_eq!(r.crashes_found[1].severity, CrashSeverity::Medium);
    assert_eq!(r.crashes_found[1].error_message, "Execution timed out");
    assert_eq!(r.crashes_found[1].gas_used, 0);
    assert_eq!(r.crashes_found[1].stack_trace, "Execution failed in sandbox");
}

#[test]
fn empty_campaign_result() {
    let r = FuzzResult::empty();
    assert_eq!(r.inputs_tested, 0);
    assert_eq!(r.unique_paths, 0);
    assert!(r.crashes_found.is_empty());
}

#[test]
fn fuzz_runs_get_lower_ceilings() {
    let c = fuzz_run_config(5000);
    assert_eq!(c.time_limit_ms, 5000);
    assert_eq!(c.memory_limit, 256 * 1024 * 1024);
    assert_eq!(c.cpu_limit, 25);
    assert_eq!(c.disk_quota, 10 * 1024 * 1024);
    assert_eq!(c.max_processes, 5);
}

#[test]
fn mutation_replaces_one_place() {
    let s = JsonValue::Text("héllo".to_string());
    assert_eq!(mutation_sites(&s), 5);
    match mutate_at(s, 1, 'e', JsonValue::Null) {
        JsonValue::Text(t) => assert_eq!(t, "hello"),
        other => panic!("unexpected {:?}", other),
    }
    let a = JsonValue::Array(vec![JsonValue::Null, JsonValue::Bool(true)]);
    match mutate_at(a, 1, ' ', JsonValue::Number(JsonNumber::PosInt(5))) {
        JsonValue::Array(b) => {
            assert!(matches!(b[0], JsonValue::Null));
            assert!(matches!(b[1], JsonValue::Number(JsonNumber::PosInt(5))));
        }
        other => panic!("unexpected {:?}", other),
    }
    let o = JsonValue::Object(vec![("k".to_string(), JsonValue::Null), ("v".to_string(), JsonValue::Null)]);
    match mutate_at(o, 0, ' ', JsonValue::Bool(false)) {
        JsonValue::Object(m) => {
            assert_eq!(m[0].0, "k");
            assert!(matches!(m[0].1, JsonValue::Bool(false)));
            assert_eq!(m[1].0, "v");
        }
        other => panic!("unexpected {:?}", other),
    }
    assert_eq!(mutation_sites(&JsonValue::Bool(true)), 0);
    assert_eq!(mutation_sites(&JsonValue::Text(String::new())), 0);
}

#[test]
fn variation_kinds() {
    assert_eq!(variation_kind(&JsonValue::Number(JsonNumber::PosInt(3))), VariationKind::ShiftNumber);
    assert_eq!(variation_kind(&JsonValue::Text(String::new())), VariationKind::RandomString);
    assert_eq!(variation_kind(&JsonValue::Text("a".to_string())), VariationKind::MutateOne);
    assert_eq!(variation_kind(&JsonValue::Array(vec![])), VariationKind::Unchanged);
    assert_eq!(variation_kind(&JsonValue::Object(vec![("k".to_string(), JsonValue::Null)])), VariationKind::MutateOne);
    assert_eq!(variation_kind(&JsonValue::Null), VariationKind::Fresh);
}

#[test]
fn simple_variations() {
    assert_eq!(simple_string_variation("ab", 0), "abx");
    assert_eq!(simple_string_variation("ab", 1), "a");
    assert_eq!(simple_string_variation("", 4), "");
    assert_eq!(simple_string_variation("ab", 2), "ab");
    let r = simple_array_variation(vec![JsonValue::Null, JsonValue::Null], 3);
    assert!(matches!(r[0], JsonValue::Null));
    assert!(matches!(&r[1], JsonValue::Text(t) if t == "fuzz"));
    assert!(simple_array_variation(vec![], 5).is_empty());
}

#[test]
fn sandbox_failure_keeps_its_message() {
    let mut c = Campaign::new();
    c.record_run(JsonValue::Null, Err(SandboxError::SpawnFailed("no such tool".to_string())));
    let r = c.finish(0);
    assert_eq!(r.crashes_found[0].error_message, "no such tool");
}
