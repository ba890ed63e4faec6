//! The grading pipeline's decisions: commands and files per language, the
//! limits of each stage, which tests pass, and the final score.
use vstd::prelude::*;
use crate::fixtures::TestFixture;
use crate::fuzz::FuzzResult;
use crate::sandbox::{ExecutionResult, SandboxConfig, TraceEvent};
use crate::text::{chars_of, str_eq, string_from_chars};

verus! {

broadcast use vstd::string::group_string_axioms;

/// Score at or above which a submission passes.
pub const PASS_SCORE: u64 = 70;
/// Points taken off for each crash the fuzzer finds.
pub const CRASH_PENALTY: u64 = 5;

/// The command that builds a submission's artifact for fuzzing.
pub open spec fn compile_command_of(language: Seq<char>) -> Seq<char> {
    if language == "rust"@ {
        "cargo"@
    } else if language == "solidity"@ {
        "solc"@
    } else {
        "echo"@
    }
}

/// The command that builds a submission's artifact for fuzzing.
pub fn get_compile_command(language: &str) -> (c: String)
    ensures
        c@ == compile_command_of(language@),
{
    if str_eq(language, "rust") {
        String::from_str("cargo")
    } else if str_eq(language, "solidity") {
        String::from_str("solc")
    } else {
        String::from_str("echo")
    }
}

/// The compile stage's command and arguments: `cargo build --release` for
/// Rust, `forge build` for Solidity, `echo compiled` otherwise.
pub fn get_compile_command_with_args(language: &str) -> (r: (String, Vec<String>))
    ensures
        language@ == "rust"@ ==> r.0@ == "cargo"@ && r.1@.len() == 2 && r.1@[0]@ == "build"@
            && r.1@[1]@ == "--release"@,
        language@ != "rust"@ && language@ == "solidity"@ ==> r.0@ == "forge"@ && r.1@.len() == 1
            && r.1@[0]@ == "build"@,
        language@ != "rust"@ && language@ != "solidity"@ ==> r.0@ == "echo"@ && r.1@.len() == 1
            && r.1@[0]@ == "compiled"@,
{
    let mut args: Vec<String> = Vec::new();
    if str_eq(language, "rust") {
        args.push(String::from_str("build"));
        args.push(String::from_str("--release"));
        (String::from_str("cargo"), args)
    } else if str_eq(language, "solidity") {
        args.push(String::from_str("build"));
        (String::from_str("forge"), args)
    } else {
        args.push(String::from_str("compiled"));
        (String::from_str("echo"), args)
    }
}

/// The command that runs a compiled submission on one input file.
pub open spec fn run_command_of(language: Seq<char>) -> Seq<char> {
    if language == "rust"@ {
        "./target/release/grader-code"@
    } else if language == "solidity"@ {
        "forge test"@
    } else {
        "echo"@
    }
}

/// The command that runs a compiled submission on one input file.
pub fn get_run_command(language: &str) -> (c: String)
    ensures
        c@ == run_command_of(language@),
{
    if str_eq(language, "rust") {
        String::from_str("./target/release/grader-code")
    } else if str_eq(language, "solidity") {
        String::from_str("forge test")
    } else {
        String::from_str("echo")
    }
}

/// The extension of a submission's source file.
pub open spec fn file_extension_of(language: Seq<char>) -> Seq<char> {
    if language == "rust"@ {
        ".rs"@
    } else if language == "solidity"@ {
        ".sol"@
    } else if language == "javascript"@ {
        ".js"@
    } else if language == "python"@ {
        ".py"@
    } else {
        ".txt"@
    }
}

/// The extension of a submission's source file.
pub fn get_file_extension(language: &str) -> (e: &'static str)
    ensures
        e@ == file_extension_of(language@),
{
    if str_eq(language, "rust") {
        ".rs"
    } else if str_eq(language, "solidity") {
        ".sol"
    } else if str_eq(language, "javascript") {
        ".js"
    } else if str_eq(language, "python") {
        ".py"
    } else {
        ".txt"
    }
}

/// The file a submission is written to in its workspace.
pub open spec fn source_file_of(language: Seq<char>) -> Seq<char> {
    if language == "rust"@ {
        "main.rs"@
    } else if language == "solidity"@ {
        "Contract.sol"@
    } else {
        "code"@ + file_extension_of(language)
    }
}

/// The file a submission is written to in its workspace.
pub fn source_file_name(language: &str) -> (f: String)
    ensures
        f@ == source_file_of(language@),
{
    if str_eq(language, "rust") {
        String::from_str("main.rs")
    } else if str_eq(language, "solidity") {
        String::from_str("Contract.sol")
    } else {
        let mut f = String::from_str("code");
        f.append(get_file_extension(language));
        f
    }
}

/// Whether the workspace needs a package manifest beside the source.
pub fn needs_manifest(language: &str) -> (b: bool)
    ensures
        b == (language@ == "rust"@),
{
    str_eq(language, "rust")
}

/// Whether the language's test runner runs all fixtures in one pass.
pub fn runs_suite_at_once(language: &str) -> (b: bool)
    ensures
        b == (language@ == "solidity"@),
{
    str_eq(language, "solidity")
}

/// The limits of the compile stage: 60 s, 1 GB memory, 50% CPU, 100 MB
/// files, 10 processes, 500 MB disk.
pub fn compile_config() -> (c: SandboxConfig)
    ensures
        c.valid(),
        c.time_limit_ms == 60_000,
        c.memory_limit == 1024 * 1024 * 1024,
        c.cpu_limit == 50,
        c.network_disabled,
        c.max_file_size == 100 * 1024 * 1024,
        c.max_processes == 10,
        c.disk_quota == 500 * 1024 * 1024,
{
    SandboxConfig {
        time_limit_ms: 60_000,
        memory_limit: 1024 * 1024 * 1024,
        cpu_limit: 50,
        network_disabled: true,
        max_file_size: 100 * 1024 * 1024,
        max_processes: 10,
        disk_quota: 500 * 1024 * 1024,
    }
}

/// The limits of a whole-suite test run: as for compiling, with 300 s.
pub fn suite_config() -> (c: SandboxConfig)
    ensures
        c.valid(),
        c.time_limit_ms == 300_000,
        c.memory_limit == 1024 * 1024 * 1024,
        c.cpu_limit == 50,
{
    let mut c = compile_config();
    c.time_limit_ms = 300_000;
    c
}

/// The wall-clock limit of one test, in milliseconds: the smaller of the
/// fixture's timeout and the request's limit, both in seconds.
pub open spec fn test_time_limit_ms(fixture_timeout: u64, time_limit: u64) -> int {
    let secs: int = if fixture_timeout <= time_limit { fixture_timeout as int } else { time_limit as int };
    if secs * 1000 > u64::MAX { u64::MAX as int } else { secs * 1000 }
}

/// The limits of one test: min(fixture timeout, time limit), 512 MB memory,
/// 25% CPU, 10 MB files, 5 processes, 50 MB disk.
pub fn test_config(fixture: &TestFixture, time_limit: u64) -> (c: SandboxConfig)
    ensures
        c.time_limit_ms == test_time_limit_ms(fixture.timeout, time_limit),
        c.memory_limit == 512 * 1024 * 1024,
        c.cpu_limit == 25,
        c.network_disabled,
        c.max_file_size == 10 * 1024 * 1024,
        c.max_processes == 5,
        c.disk_quota == 50 * 1024 * 1024,
        fixture.timeout > 0 && time_limit > 0 ==> c.valid(),
{
    let secs = if fixture.timeout <= time_limit { fixture.timeout } else { time_limit };
    let ms = if secs > u64::MAX / 1000 { u64::MAX } else { secs * 1000 };
    SandboxConfig {
        time_limit_ms: ms,
        memory_limit: 512 * 1024 * 1024,
        cpu_limit: 25,
        network_disabled: true,
        max_file_size: 10 * 1024 * 1024,
        max_processes: 5,
        disk_quota: 50 * 1024 * 1024,
    }
}

/// Whether a test run passed: for a whole-suite runner its success, else
/// success with exit code zero.
pub open spec fn test_passed_spec(suite_at_once: bool, result: ExecutionResult) -> bool {
    if suite_at_once {
        result.success
    } else {
        result.success && result.exit_code == Some(0i32)
    }
}

/// Whether a test run passed.
pub fn test_passed(language: &str, result: &ExecutionResult) -> (b: bool)
    ensures
        b == test_passed_spec(language@ == "solidity"@, *result),
{
    if runs_suite_at_once(language) {
        result.success
    } else {
        result.success && match result.exit_code {
            Some(c) => c == 0,
            None => false,
        }
    }
}

/// The results of one suite of tests.
pub struct TestSuiteResult {
    pub passed: u64,
    pub total: u64,
    pub gas_used: u64,
    pub trace_events: Vec<TraceEvent>,
}

impl TestSuiteResult {
    /// No more tests passed than run.
    pub open spec fn valid(&self) -> bool {
        self.passed <= self.total
    }

    /// A suite of `total` tests before any has run.
    pub fn new(total: u64) -> (s: TestSuiteResult)
        ensures
            s.valid(),
            s.passed == 0,
            s.total == total,
            s.gas_used == 0,
            s.trace_events@.len() == 0,
    {
        TestSuiteResult { passed: 0, total, gas_used: 0, trace_events: Vec::new() }
    }

    /// Records one test run and whether it passed; its trace is appended.
    pub fn record(&mut self, passed: bool, result: ExecutionResult)
        requires
            old(self).valid(),
            passed ==> old(self).passed < old(self).total,
        ensures
            final(self).valid(),
            final(self).total == old(self).total,
            final(self).passed == old(self).passed + if passed { 1u64 } else { 0u64 },
            final(self).gas_used == old(self).gas_used.saturating_add(result.gas_used),
            final(self).trace_events@ == old(self).trace_events@ + result.trace_events@,
    {
        if passed {
            self.passed = self.passed + 1;
        }
        self.gas_used = self.gas_used.saturating_add(result.gas_used);
        let mut events = result.trace_events;
        self.trace_events.append(&mut events);
    }

    /// The results of a runner that ran all `total` tests in one pass: all
    /// pass when it succeeded, none otherwise.
    pub fn from_single_run(total: u64, result: ExecutionResult) -> (s: TestSuiteResult)
        ensures
            s.valid(),
            s.total == total,
            s.passed == if result.success { total } else { 0 },
            s.gas_used == result.gas_used,
            s.trace_events@ == result.trace_events@,
    {
        TestSuiteResult {
            passed: if result.success { total } else { 0 },
            total,
            gas_used: result.gas_used,
            trace_events: result.trace_events,
        }
    }
}

/// `passed * 100 / total`, rounded down; zero when there are no tests.
pub open spec fn base_score(passed: int, total: int) -> int {
    if total > 0 {
        passed * 100 / total
    } else {
        0
    }
}

/// The base score less five points per crash, never below zero.
pub open spec fn final_score(base: int, crashes: int) -> int {
    if base - CRASH_PENALTY * crashes > 0 {
        base - CRASH_PENALTY * crashes
    } else {
        0
    }
}

/// The score and totals of a graded submission.
pub struct GradeOutcome {
    pub success: bool,
    pub score: u64,
    pub base_score: u64,
    pub passed_tests: u64,
    pub total_tests: u64,
    pub gas_used: u64,
    pub crashes: u64,
}

/// The base score of `passed` of `total` tests.
pub fn calculate_base_score(passed: u64, total: u64) -> (s: u64)
    requires
        passed <= total,
    ensures
        s == base_score(passed as int, total as int),
        s <= 100,
{
    if total == 0 {
        0
    } else {
        let p = passed as u128;
        let t = total as u128;
        proof {
            assert(p * 100 <= t * 100) by (nonlinear_arith)
                requires
                    p <= t,
            ;
            vstd::arithmetic::div_mod::lemma_div_is_ordered((p * 100) as int, (t * 100) as int, t as int);
            vstd::arithmetic::div_mod::lemma_div_multiples_vanish(100, t as int);
            assert(t * 100 == 100 * t) by (nonlinear_arith);
        }
        ((p * 100) / t) as u64
    }
}

/// The score after the fuzzing penalty.
pub fn calculate_final_score(base: u64, crashes: u64) -> (s: u64)
    ensures
        s == final_score(base as int, crashes as int),
        s <= base,
{
    if crashes >= base as u64 / CRASH_PENALTY + 1 {
        0
    } else {
        base - crashes * CRASH_PENALTY
    }
}

/// The outcome of a graded submission from its test suites, the fuzz
/// campaign and the compile stage's gas.
pub fn aggregate_score(
    public: &TestSuiteResult,
    hidden: &TestSuiteResult,
    fuzz: &FuzzResult,
    compile_gas: u64,
) -> (g: GradeOutcome)
    requires
        public.valid(),
        hidden.valid(),
        public.total + hidden.total <= u64::MAX,
    ensures
        g.total_tests == public.total + hidden.total,
        g.passed_tests == public.passed + hidden.passed,
        g.crashes == fuzz.crashes_found@.len(),
        g.base_score == base_score(g.passed_tests as int, g.total_tests as int),
        g.score == final_score(g.base_score as int, g.crashes as int),
        0 <= g.score <= 100,
        g.success == (g.score >= PASS_SCORE),
        is_aggregate_outcome(g),
        g.gas_used == compile_gas.saturating_add(public.gas_used).saturating_add(hidden.gas_used),
{
    let total = public.total + hidden.total;
    let passed = public.passed + hidden.passed;
    let crashes = fuzz.crashes_found.len() as u64;
    let base = calculate_base_score(passed, total);
    let score = calculate_final_score(base, crashes);
    GradeOutcome {
        success: score >= PASS_SCORE,
        score,
        base_score: base,
        passed_tests: passed,
        total_tests: total,
        gas_used: compile_gas.saturating_add(public.gas_used).saturating_add(hidden.gas_used),
        crashes,
    }
}

/// The outcome when the compile stage fails: score zero, no tests.
pub fn compile_failure(compile_gas: u64) -> (g: GradeOutcome)
    ensures
        !g.success,
        g.score == 0,
        g.passed_tests == 0,
        g.total_tests == 0,
        g.gas_used == compile_gas,
        is_aggregate_outcome(g),
{
    GradeOutcome {
        success: false,
        score: 0,
        base_score: 0,
        passed_tests: 0,
        total_tests: 0,
        gas_used: compile_gas,
        crashes: 0,
    }
}

/// For any tests and crashes, the final score lies between 0 and 100.
pub proof fn lemma_score_bounds(passed: nat, total: nat, crashes: nat)
    requires
        passed <= total,
    ensures
        0 <= final_score(base_score(passed as int, total as int), crashes as int) <= 100,
{
    if total > 0 {
        assert(passed * 100 <= total * 100) by (nonlinear_arith)
            requires
                passed <= total,
        ;
        vstd::arithmetic::div_mod::lemma_div_is_ordered((passed * 100) as int, (total * 100) as int, total as int);
        vstd::arithmetic::div_mod::lemma_div_multiples_vanish(100, total as int);
        assert(total * 100 == 100 * total) by (nonlinear_arith);
        vstd::arithmetic::div_mod::lemma_div_pos_is_pos((passed * 100) as int, total as int);
    }
}

/// An outcome as `aggregate_score` makes it: the score from the tests and
/// crashes, and success exactly at the pass score.
pub open spec fn is_aggregate_outcome(g: GradeOutcome) -> bool {
    &&& g.passed_tests <= g.total_tests
    &&& g.base_score == base_score(g.passed_tests as int, g.total_tests as int)
    &&& g.score == final_score(g.base_score as int, g.crashes as int)
    &&& g.success == (g.score >= PASS_SCORE)
}

/// Every graded outcome has a score between 0 and 100 and succeeds exactly
/// when the score is at least 70.
pub proof fn lemma_outcome_score(g: GradeOutcome)
    requires
        is_aggregate_outcome(g),
    ensures
        0 <= g.score <= 100,
        g.success <==> g.score >= 70,
{
    lemma_score_bounds(g.passed_tests as nat, g.total_tests as nat, g.crashes as nat);
}

/// The character of a decimal digit.
pub open spec fn digit_char(d: nat) -> char {
    if d == 0 {
        '0'
    } else if d == 1 {
        '1'
    } else if d == 2 {
        '2'
    } else if d == 3 {
        '3'
    } else if d == 4 {
        '4'
    } else if d == 5 {
        '5'
    } else if d == 6 {
        '6'
    } else if d == 7 {
        '7'
    } else if d == 8 {
        '8'
    } else {
        '9'
    }
}

/// The decimal digits of `n`, without leading zeros.
pub open spec fn decimal_of(n: nat) -> Seq<char>
    decreases n,
{
    if n < 10 {
        seq![digit_char(n)]
    } else {
        decimal_of(n / 10).push(digit_char(n % 10))
    }
}

fn digit(d: u64) -> (c: char)
    requires
        d < 10,
    ensures
        c == digit_char(d as nat),
{
    if d == 0 {
        '0'
    } else if d == 1 {
        '1'
    } else if d == 2 {
        '2'
    } else if d == 3 {
        '3'
    } else if d == 4 {
        '4'
    } else if d == 5 {
        '5'
    } else if d == 6 {
        '6'
    } else if d == 7 {
        '7'
    } else if d == 8 {
        '8'
    } else {
        '9'
    }
}

/// Appends the decimal digits of `n`.
fn push_decimal(out: &mut Vec<char>, n: u64)
    ensures
        final(out)@ == old(out)@ + decimal_of(n as nat),
    decreases n,
{
    if n >= 10 {
        push_decimal(out, n / 10);
    }
    out.push(digit(n % 10));
}

fn push_text(out: &mut Vec<char>, t: &str)
    ensures
        final(out)@ == old(out)@ + t@,
{
    let cs = chars_of(t);
    let mut i: usize = 0;
    while i < cs.len()
        invariant
            i <= cs@.len(),
            cs@ == t@,
            out@ == old(out)@ + cs@.take(i as int),
        decreases cs.len() - i,
    {
        assert(cs@.take(i + 1) =~= cs@.take(i as int).push(cs@[i as int]));
        out.push(cs[i]);
        i = i + 1;
    }
    assert(cs@.take(cs@.len() as int) =~= cs@);
}

/// The report's one-line summary of the tests and the fuzz campaign.
pub open spec fn summary_of(public: TestSuiteResult, hidden: TestSuiteResult, crashes: nat) -> Seq<char> {
    "Public: "@ + decimal_of(public.passed as nat) + "/"@ + decimal_of(public.total as nat) + ", Hidden: "@
        + decimal_of(hidden.passed as nat) + "/"@ + decimal_of(hidden.total as nat) + ", Fuzz: "@
        + decimal_of(crashes) + " crashes"@
}

/// The report's summary line: `Public: p/t, Hidden: p/t, Fuzz: n crashes`.
pub fn summary_line(public: &TestSuiteResult, hidden: &TestSuiteResult, fuzz: &FuzzResult) -> (s: String)
    ensures
        s@ == summary_of(*public, *hidden, fuzz.crashes_found@.len()),
{
    let mut out: Vec<char> = Vec::new();
    push_text(&mut out, "Public: ");
    push_decimal(&mut out, public.passed);
    push_text(&mut out, "/");
    push_decimal(&mut out, public.total);
    push_text(&mut out, ", Hidden: ");
    push_decimal(&mut out, hidden.passed);
    push_text(&mut out, "/");
    push_decimal(&mut out, hidden.total);
    push_text(&mut out, ", Fuzz: ");
    push_decimal(&mut out, fuzz.crashes_found.len() as u64);
    push_text(&mut out, " crashes");
    string_from_chars(&out)
}

} // verus!
