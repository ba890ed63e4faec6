//! Fuzz-campaign analysis: crash severity, stack traces, coverage points and
//! execution-path hashes, and the bookkeeping of a campaign.
use vstd::prelude::*;
use crate::json::JsonValue;
use crate::sandbox::{error_text, ExecutionResult, SandboxConfig, SandboxError};
use crate::text::{chars_of, contains_str, has_substring, lines, lines_of, same_chars, string_from_chars};

verus! {

broadcast use vstd::string::group_string_axioms;

/// Campaign length when none is given.
pub const DEFAULT_MAX_ITERATIONS: u64 = 100;
/// Per-input wall-clock limit, in milliseconds.
pub const DEFAULT_TIMEOUT_MS: u64 = 5_000;
/// Mutated variations made from each seed fixture.
pub const VARIATIONS_PER_SEED: u64 = 10;
/// Fully random inputs added to every campaign.
pub const RANDOM_INPUTS: u64 = 50;
/// Coverage points that make a full score; scores are in thousandths.
pub const COVERAGE_FULL: u64 = 1000;
/// Lines of a stack trace kept after the line that opens it.
pub const STACK_TRACE_LINES: usize = 20;

/// How bad a crash looks from its error text.
#[derive(PartialEq, Eq, Structural, Clone, Copy, Debug)]
pub enum CrashSeverity {
    Low,
    Medium,
    High,
    Critical,
}

/// The severity that the error text `m` signals; the first matching rule wins.
pub open spec fn severity_of(m: Seq<char>) -> CrashSeverity {
    if has_substring(m, "panic"@) || has_substring(m, "segmentation fault"@) {
        CrashSeverity::Critical
    } else if has_substring(m, "overflow"@) || has_substring(m, "null pointer"@) {
        CrashSeverity::High
    } else if has_substring(m, "assertion failed"@) {
        CrashSeverity::Medium
    } else {
        CrashSeverity::Low
    }
}

/// The severity of a crash whose error text is `message`.
pub fn classify_severity(message: &str) -> (s: CrashSeverity)
    ensures
        s == severity_of(message@),
{
    let m = chars_of(message);
    if contains_str(&m, "panic") || contains_str(&m, "segmentation fault") {
        CrashSeverity::Critical
    } else if contains_str(&m, "overflow") || contains_str(&m, "null pointer") {
        CrashSeverity::High
    } else if contains_str(&m, "assertion failed") {
        CrashSeverity::Medium
    } else {
        CrashSeverity::Low
    }
}

/// A line that opens a stack trace.
pub open spec fn opens_stack_trace(l: Seq<char>) -> bool {
    has_substring(l, "stack backtrace"@) || has_substring(l, "Stack trace"@)
}

/// Scanning lines in order: whether a stack trace has opened, and the lines
/// kept so far (the opening line and up to twenty after it).
pub open spec fn trace_scan(ls: Seq<Seq<char>>) -> (bool, Seq<Seq<char>>)
    decreases ls.len(),
{
    if ls.len() == 0 {
        (false, Seq::empty())
    } else {
        let (open, kept) = trace_scan(ls.drop_last());
        if kept.len() > STACK_TRACE_LINES {
            (open, kept)
        } else if open || opens_stack_trace(ls.last()) {
            (true, kept.push(ls.last()))
        } else {
            (false, kept)
        }
    }
}

/// Lines joined, each followed by a newline.
pub open spec fn joined_lines(ls: Seq<Seq<char>>) -> Seq<char>
    decreases ls.len(),
{
    if ls.len() == 0 {
        Seq::empty()
    } else {
        joined_lines(ls.drop_last()) + ls.last().push('\n')
    }
}

/// The stack trace found in `stderr`, or a note that there is none.
pub open spec fn stack_trace_of(stderr: Seq<char>) -> Seq<char> {
    let kept = trace_scan(lines_of(stderr)).1;
    if kept.len() == 0 {
        "No stack trace available"@
    } else {
        joined_lines(kept)
    }
}

/// The stack trace in `stderr`: from the first line that opens one, that
/// line and at most twenty more, each ended by a newline.
pub fn extract_stack_trace(stderr: &str) -> (r: String)
    ensures
        r@ == stack_trace_of(stderr@),
{
    let ls = lines(&chars_of(stderr));
    let ghost all = lines_of(stderr@);
    let mut open = false;
    let mut kept: usize = 0;
    let mut out: Vec<char> = Vec::new();
    let mut i: usize = 0;
    while i < ls.len()
        invariant
            i <= ls@.len(),
            ls@.len() == all.len(),
            forall|j: int| 0 <= j < ls@.len() ==> #[trigger] ls@[j]@ == all[j],
            open == trace_scan(all.take(i as int)).0,
            kept == trace_scan(all.take(i as int)).1.len(),
            out@ == joined_lines(trace_scan(all.take(i as int)).1),
        decreases ls.len() - i,
    {
        assert(all.take(i + 1).drop_last() =~= all.take(i as int));
        assert(all.take(i + 1).last() == all[i as int]);
        if kept <= STACK_TRACE_LINES {
            let line = &ls[i];
            let opens = contains_str(line, "stack backtrace") || contains_str(line, "Stack trace");
            if open || opens {
                open = true;
                let ghost before = out@;
                let mut k: usize = 0;
                while k < line.len()
                    invariant
                        k <= line@.len(),
                        out@ == before + line@.take(k as int),
                    decreases line.len() - k,
                {
                    assert(line@.take(k + 1) =~= line@.take(k as int).push(line@[k as int]));
                    out.push(line[k]);
                    k = k + 1;
                }
                assert(line@.take(line@.len() as int) =~= line@);
                out.push('\n');
                assert(out@ =~= before + line@.push('\n'));
                proof {
                    let ghost ks = trace_scan(all.take(i as int)).1;
                    assert(ks.push(line@).drop_last() =~= ks);
                }
                kept = kept + 1;
            }
        }
        i = i + 1;
    }
    assert(all.take(all.len() as int) =~= all);
    if kept == 0 {
        String::from_str("No stack trace available")
    } else {
        string_from_chars(&out)
    }
}

/// A run of a fuzz input that failed.
pub struct FuzzCrash {
    pub input: JsonValue,
    pub error_message: String,
    pub stack_trace: String,
    pub gas_used: u64,
    pub severity: CrashSeverity,
}

/// The error text of a failed run: its stderr, else its stdout, else a note.
pub open spec fn crash_message(stdout: Seq<char>, stderr: Seq<char>) -> Seq<char> {
    if stderr.len() > 0 {
        stderr
    } else if stdout.len() > 0 {
        stdout
    } else {
        "Unknown crash"@
    }
}

/// A run counts as a crash when it failed and did not exit with code zero.
pub open spec fn is_crash(result: ExecutionResult) -> bool {
    !result.success && result.exit_code != Some(0i32)
}

/// The crash record of a failed run of `input`.
pub fn analyze_crash(input: JsonValue, result: &ExecutionResult) -> (c: FuzzCrash)
    ensures
        c.input == input,
        c.error_message@ == crash_message(result.stdout@, result.stderr@),
        c.severity == severity_of(c.error_message@),
        c.stack_trace@ == stack_trace_of(result.stderr@),
        c.gas_used == result.gas_used,
{
    let error_message = if !result.stderr.as_str().is_empty() {
        result.stderr.clone()
    } else if !result.stdout.as_str().is_empty() {
        result.stdout.clone()
    } else {
        String::from_str("Unknown crash")
    };
    let severity = classify_severity(error_message.as_str());
    let stack_trace = extract_stack_trace(result.stderr.as_str());
    FuzzCrash { input, error_message, stack_trace, gas_used: result.gas_used, severity }
}

/// The crash record of an input whose run could not be completed.
pub fn failed_run_crash(input: JsonValue, error_message: String) -> (c: FuzzCrash)
    ensures
        c.input == input,
        c.error_message == error_message,
        c.stack_trace@ == "Execution failed in sandbox"@,
        c.gas_used == 0,
        c.severity == CrashSeverity::Medium,
{
    FuzzCrash {
        input,
        error_message,
        stack_trace: String::from_str("Execution failed in sandbox"),
        gas_used: 0,
        severity: CrashSeverity::Medium,
    }
}

/// `ps` with `p` added at the end unless it is already there.
pub open spec fn add_point(ps: Seq<Seq<char>>, p: Seq<char>) -> Seq<Seq<char>> {
    if ps.contains(p) {
        ps
    } else {
        ps.push(p)
    }
}

/// A set of texts, kept in the order they were first added.
///
/// This stands where a `HashSet<String>` would: with `String` elements Verus
/// proves nothing about a `HashSet`'s contents or size, while a `Vec` free of
/// duplicates has both as plain sequence facts.
pub struct TextSet {
    items: Vec<Vec<char>>,
}

impl View for TextSet {
    type V = Seq<Seq<char>>;

    closed spec fn view(&self) -> Seq<Seq<char>> {
        self.items@.map_values(|t: Vec<char>| t@)
    }
}

impl TextSet {
    /// The empty set.
    pub fn new() -> (t: TextSet)
        ensures
            t@ == Seq::<Seq<char>>::empty(),
    {
        let t = TextSet { items: Vec::new() };
        assert(t@ =~= Seq::<Seq<char>>::empty());
        t
    }

    /// Whether `p` is in the set.
    pub fn contains(&self, p: &Vec<char>) -> (r: bool)
        ensures
            r == self@.contains(p@),
    {
        let mut i: usize = 0;
        while i < self.items.len()
            invariant
                i <= self@.len(),
                forall|j: int| 0 <= j < i ==> self@[j] != p@,
            decreases self.items.len() - i,
        {
            if same_chars(&self.items[i], p) {
                assert(self@[i as int] == p@);
                return true;
            }
            i = i + 1;
        }
        false
    }

    /// Adds `p` unless it is already there.
    pub fn insert(&mut self, p: Vec<char>)
        ensures
            final(self)@ == add_point(old(self)@, p@),
    {
        if !self.contains(&p) {
            self.items.push(p);
            assert(self@ =~= old(self)@.push(p@));
        }
    }

    /// The number of texts in the set.
    pub fn len(&self) -> (n: usize)
        ensures
            n == self@.len(),
    {
        self.items.len()
    }
}

/// Adding a point keeps a sequence free of duplicates.
pub proof fn lemma_add_point_no_duplicates(ps: Seq<Seq<char>>, p: Seq<char>)
    requires
        ps.no_duplicates(),
    ensures
        add_point(ps, p).no_duplicates(),
        add_point(ps, p).len() <= ps.len() + 1,
{
}

/// A line of output that marks a coverage point.
pub open spec fn is_coverage_line(l: Seq<char>) -> bool {
    has_substring(l, "branch"@) || has_substring(l, "line"@) || has_substring(l, "function"@)
}

/// `ps` with every coverage line of `ls` added, in order.
pub open spec fn add_coverage(ps: Seq<Seq<char>>, ls: Seq<Seq<char>>) -> Seq<Seq<char>>
    decreases ls.len(),
{
    if ls.len() == 0 {
        ps
    } else {
        let before = add_coverage(ps, ls.drop_last());
        if is_coverage_line(ls.last()) {
            add_point(before, ls.last())
        } else {
            before
        }
    }
}

/// Adding coverage lines keeps a sequence free of duplicates.
pub proof fn lemma_add_coverage_no_duplicates(ps: Seq<Seq<char>>, ls: Seq<Seq<char>>)
    requires
        ps.no_duplicates(),
    ensures
        add_coverage(ps, ls).no_duplicates(),
    decreases ls.len(),
{
    if ls.len() > 0 {
        lemma_add_coverage_no_duplicates(ps, ls.drop_last());
    }
}

/// The characters of `a` followed by those of `b`.
pub fn concat_chars(a: &str, b: &str) -> (r: Vec<char>)
    ensures
        r@ == a@ + b@,
{
    let mut r = chars_of(a);
    let bc = chars_of(b);
    let mut i: usize = 0;
    while i < bc.len()
        invariant
            i <= bc@.len(),
            r@ == a@ + bc@.take(i as int),
        decreases bc.len() - i,
    {
        assert(bc@.take(i + 1) =~= bc@.take(i as int).push(bc@[i as int]));
        r.push(bc[i]);
        i = i + 1;
    }
    assert(bc@.take(bc@.len() as int) =~= bc@);
    r
}

/// Adds to `coverage` each line of the run's output (stdout, then stderr)
/// that mentions a branch, a line or a function.
pub fn update_coverage(stdout: &str, stderr: &str, coverage: &mut TextSet)
    ensures
        final(coverage)@ == add_coverage(old(coverage)@, lines_of(stdout@ + stderr@)),
{
    let combined = concat_chars(stdout, stderr);
    let ls = lines(&combined);
    let ghost all = lines_of(stdout@ + stderr@);
    let mut i: usize = 0;
    while i < ls.len()
        invariant
            i <= ls@.len(),
            ls@.len() == all.len(),
            forall|j: int| 0 <= j < ls@.len() ==> #[trigger] ls@[j]@ == all[j],
            coverage@ == add_coverage(old(coverage)@, all.take(i as int)),
        decreases ls.len() - i,
    {
        assert(all.take(i + 1).drop_last() =~= all.take(i as int));
        assert(all.take(i + 1).last() == all[i as int]);
        let line = &ls[i];
        if contains_str(line, "branch") || contains_str(line, "line") || contains_str(line, "function") {
            coverage.insert(line.clone());
        }
        i = i + 1;
    }
    assert(all.take(all.len() as int) =~= all);
}

/// The coverage score in thousandths: the number of distinct coverage
/// points, at most the full score.
pub open spec fn coverage_millis(points: nat) -> nat {
    if points < COVERAGE_FULL {
        points
    } else {
        COVERAGE_FULL as nat
    }
}

/// The coverage score of a set of points, in thousandths: min(1, |points| / 1000).
pub fn calculate_coverage_score(coverage: &TextSet) -> (s: u64)
    requires
        coverage@.no_duplicates(),
    ensures
        s == coverage_millis(coverage@.to_set().len()),
        s <= COVERAGE_FULL,
{
    proof {
        coverage@.unique_seq_to_set();
    }
    let n = coverage.len();
    if n < 1000 {
        n as u64
    } else {
        COVERAGE_FULL
    }
}

/// The name of the digest of `data` that `sha256_hex` returns.
pub uninterp spec fn sha256_hex_of(data: Seq<u8>) -> Seq<char>;

/// Relies on `sha2::Sha256::digest` and the lowercase-hex form of its
/// output: the SHA-256 digest of `data`, two hex digits per byte.
#[verifier::external_body]
fn sha256_hex(data: &Vec<u8>) -> (r: String)
    ensures
        r@ == sha256_hex_of(data@),
        r@.len() == 64,
{
    format!("{:x}", <sha2::Sha256 as sha2::Digest>::digest(data))
}

/// The four little-endian bytes of a 32-bit exit code.
pub open spec fn le_bytes(code: i32) -> Seq<u8> {
    let u: int = if code >= 0 { code as int } else { code + 0x1_0000_0000 };
    seq![(u % 256) as u8, ((u / 256) % 256) as u8, ((u / 65536) % 256) as u8, ((u / 16777216) % 256) as u8]
}

/// What identifies an execution path: the bytes of stdout, of stderr, and
/// of the exit code (zero when there is none).
pub open spec fn path_bytes(stdout: Seq<char>, stderr: Seq<char>, exit_code: Option<i32>) -> Seq<u8> {
    let code: i32 = match exit_code {
        Some(c) => c,
        None => 0i32,
    };
    vstd::utf8::encode_utf8(stdout) + vstd::utf8::encode_utf8(stderr) + le_bytes(code)
}

fn push_bytes(out: &mut Vec<u8>, s: &str)
    ensures
        final(out)@ == old(out)@ + vstd::utf8::encode_utf8(s@),
{
    let b = s.as_bytes();
    let mut i: usize = 0;
    while i < b.len()
        invariant
            i <= b@.len(),
            b@ == vstd::utf8::encode_utf8(s@),
            out@ == old(out)@ + b@.take(i as int),
        decreases b.len() - i,
    {
        assert(b@.take(i + 1) =~= b@.take(i as int).push(b@[i as int]));
        out.push(b[i]);
        i = i + 1;
    }
    assert(b@.take(b@.len() as int) =~= b@);
}

/// The path hash of a run: SHA-256 over stdout, stderr and the exit code.
pub fn calculate_path_hash(result: &ExecutionResult) -> (h: String)
    ensures
        h@ == sha256_hex_of(path_bytes(result.stdout@, result.stderr@, result.exit_code)),
{
    let mut data: Vec<u8> = Vec::new();
    push_bytes(&mut data, result.stdout.as_str());
    push_bytes(&mut data, result.stderr.as_str());
    let code: i32 = match result.exit_code {
        Some(c) => c,
        None => 0,
    };
    let u: u64 = if code >= 0 { code as u64 } else { (code as i64 + 0x1_0000_0000i64) as u64 };
    let ghost before = data@;
    data.push((u % 256) as u8);
    data.push(((u / 256) % 256) as u8);
    data.push(((u / 65536) % 256) as u8);
    data.push(((u / 16777216) % 256) as u8);
    assert(data@ =~= before + le_bytes(code));
    sha256_hex(&data)
}

/// How many places a mutation can change in a value: the characters of a
/// string, the elements of an array, the members of an object; none in
/// any other value.
pub open spec fn mutation_sites_of(v: JsonValue) -> nat {
    match v {
        JsonValue::Text(s) => s@.len(),
        JsonValue::Array(a) => a@.len(),
        JsonValue::Object(m) => m@.len(),
        _ => 0,
    }
}

/// How many places a mutation can change in `v`.
pub fn mutation_sites(v: &JsonValue) -> (n: usize)
    ensures
        n == mutation_sites_of(*v),
{
    match v {
        JsonValue::Text(s) => chars_of(s.as_str()).len(),
        JsonValue::Array(a) => a.len(),
        JsonValue::Object(m) => m.len(),
        _ => 0,
    }
}

/// A variation of a fuzz input: the character at `position` of a string
/// becomes `ch`; the element at `position` of an array, or the value of the
/// member at `position` of an object, becomes `fresh`.
pub fn mutate_at(base: JsonValue, position: usize, ch: char, fresh: JsonValue) -> (r: JsonValue)
    requires
        position < mutation_sites_of(base),
    ensures
        match base {
            JsonValue::Text(s) => r matches JsonValue::Text(t) && t@ == s@.update(position as int, ch),
            JsonValue::Array(a) => r matches JsonValue::Array(b) && b@ == a@.update(position as int, fresh),
            JsonValue::Object(m) => r matches JsonValue::Object(n) && n@ == m@.update(
                position as int,
                (m@[position as int].0, fresh),
            ),
            _ => false,
        },
{
    match base {
        JsonValue::Text(s) => {
            let mut cs = chars_of(s.as_str());
            cs.set(position, ch);
            JsonValue::Text(string_from_chars(&cs))
        },
        JsonValue::Array(a) => {
            let mut b = a;
            b.set(position, fresh);
            JsonValue::Array(b)
        },
        JsonValue::Object(m) => {
            let mut n = m;
            let key = n[position].0.clone();
            n.set(position, (key, fresh));
            JsonValue::Object(n)
        },
        _ => JsonValue::Null,
    }
}

/// Length of the random string that replaces an empty string.
pub const RANDOM_STRING_LENGTH: u64 = 10;

/// How a variation of a fuzz input is made.
#[derive(PartialEq, Eq, Structural, Clone, Copy, Debug)]
pub enum VariationKind {
    /// A number: a random delta in [-100, 100) is added.
    ShiftNumber,
    /// An empty string: a random string of ten characters.
    RandomString,
    /// A non-empty string, array or object: one place changes (`mutate_at`).
    MutateOne,
    /// An empty array or object stays as it is.
    Unchanged,
    /// Any other value: a fresh random value.
    Fresh,
}

/// How variations of `v` are made.
pub open spec fn variation_kind_of(v: JsonValue) -> VariationKind {
    match v {
        JsonValue::Number(_) => VariationKind::ShiftNumber,
        JsonValue::Text(s) => if s@.len() == 0 {
            VariationKind::RandomString
        } else {
            VariationKind::MutateOne
        },
        JsonValue::Array(a) => if a@.len() == 0 {
            VariationKind::Unchanged
        } else {
            VariationKind::MutateOne
        },
        JsonValue::Object(m) => if m@.len() == 0 {
            VariationKind::Unchanged
        } else {
            VariationKind::MutateOne
        },
        _ => VariationKind::Fresh,
    }
}

/// How variations of `v` are made.
pub fn variation_kind(v: &JsonValue) -> (k: VariationKind)
    ensures
        k == variation_kind_of(*v),
        k == VariationKind::MutateOne <==> mutation_sites_of(*v) > 0,
{
    match v {
        JsonValue::Number(_) => VariationKind::ShiftNumber,
        JsonValue::Text(s) => if s.as_str().is_empty() {
            VariationKind::RandomString
        } else {
            VariationKind::MutateOne
        },
        JsonValue::Array(a) => if a.len() == 0 {
            VariationKind::Unchanged
        } else {
            VariationKind::MutateOne
        },
        JsonValue::Object(m) => if m.len() == 0 {
            VariationKind::Unchanged
        } else {
            VariationKind::MutateOne
        },
        _ => VariationKind::Fresh,
    }
}

/// The `i`-th simple variation of a string: `x` appended when `i % 3 == 0`,
/// the last character dropped when `i % 3 == 1`, unchanged otherwise.
pub open spec fn simple_string_variant(s: Seq<char>, i: nat) -> Seq<char> {
    if i % 3 == 0 {
        s.push('x')
    } else if i % 3 == 1 && s.len() > 0 {
        s.drop_last()
    } else {
        s
    }
}

/// The `i`-th simple variation of a string.
pub fn simple_string_variation(s: &str, i: usize) -> (r: String)
    ensures
        r@ == simple_string_variant(s@, i as nat),
{
    let mut cs = chars_of(s);
    if i % 3 == 0 {
        cs.push('x');
    } else if i % 3 == 1 && cs.len() > 0 {
        cs.pop();
        assert(cs@ =~= s@.drop_last());
    }
    string_from_chars(&cs)
}

/// The `i`-th simple variation of an array: the element at `i` modulo the
/// length becomes the string `fuzz`; an empty array stays empty.
pub fn simple_array_variation(a: Vec<JsonValue>, i: usize) -> (r: Vec<JsonValue>)
    ensures
        r@.len() == a@.len(),
        a@.len() > 0 ==> {
            let k = (i as int) % (a@.len() as int);
            &&& forall|j: int| 0 <= j < a@.len() && j != k ==> r@[j] == a@[j]
            &&& r@[k] matches JsonValue::Text(t) && t@ == "fuzz"@
        },
{
    let mut r = a;
    if r.len() > 0 {
        let k = i % r.len();
        r.set(k, JsonValue::Text(String::from_str("fuzz")));
    }
    r
}

/// The limits of one fuzz run: 256 MB memory, 25% CPU, no network, 1 MB
/// files, 5 processes, 10 MB disk.
pub fn fuzz_run_config(timeout_ms: u64) -> (c: SandboxConfig)
    requires
        timeout_ms > 0,
    ensures
        c.valid(),
        c.time_limit_ms == timeout_ms,
        c.memory_limit == 256 * 1024 * 1024,
        c.cpu_limit == 25,
        c.network_disabled,
        c.max_file_size == 1024 * 1024,
        c.max_processes == 5,
        c.disk_quota == 10 * 1024 * 1024,
{
    SandboxConfig {
        time_limit_ms: timeout_ms,
        memory_limit: 256 * 1024 * 1024,
        cpu_limit: 25,
        network_disabled: true,
        max_file_size: 1024 * 1024,
        max_processes: 5,
        disk_quota: 10 * 1024 * 1024,
    }
}

/// The outcome of a fuzz campaign.
pub struct FuzzResult {
    pub inputs_tested: u64,
    pub crashes_found: Vec<FuzzCrash>,
    pub unique_paths: u64,
    /// Coverage in thousandths, 0 to 1000.
    pub coverage_score: u64,
    /// Wall-clock time of the campaign, in milliseconds.
    pub execution_time: u64,
}

impl FuzzResult {
    /// No more distinct paths than inputs, and a coverage score within range.
    pub open spec fn valid(&self) -> bool {
        self.unique_paths <= self.inputs_tested && self.coverage_score <= COVERAGE_FULL
    }

    /// The outcome of a campaign that could not run.
    pub fn empty() -> (r: FuzzResult)
        ensures
            r.valid(),
            r.inputs_tested == 0,
            r.crashes_found@.len() == 0,
            r.unique_paths == 0,
            r.coverage_score == 0,
    {
        FuzzResult {
            inputs_tested: 0,
            crashes_found: Vec::new(),
            unique_paths: 0,
            coverage_score: 0,
            execution_time: 0,
        }
    }
}

/// `c` is the crash record of the failed run `r` of `input`.
pub open spec fn is_crash_record(c: FuzzCrash, input: JsonValue, r: ExecutionResult) -> bool {
    &&& c.input == input
    &&& c.error_message@ == crash_message(r.stdout@, r.stderr@)
    &&& c.severity == severity_of(c.error_message@)
    &&& c.stack_trace@ == stack_trace_of(r.stderr@)
    &&& c.gas_used == r.gas_used
}

/// The running state of a fuzz campaign: inputs tested so far, the crashes,
/// the distinct path hashes and the coverage points seen.
pub struct Campaign {
    pub inputs_tested: u64,
    pub crashes: Vec<FuzzCrash>,
    pub paths: TextSet,
    pub coverage: TextSet,
}

impl Campaign {
    /// Path hashes and coverage points are distinct, and no more paths than
    /// inputs have been seen.
    pub open spec fn wf(&self) -> bool {
        &&& self.paths@.no_duplicates()
        &&& self.coverage@.no_duplicates()
        &&& self.paths@.len() <= self.inputs_tested
    }

    /// A campaign before its first input.
    pub fn new() -> (c: Campaign)
        ensures
            c.wf(),
            c.inputs_tested == 0,
            c.crashes@.len() == 0,
            c.paths@.len() == 0,
            c.coverage@.len() == 0,
    {
        Campaign { inputs_tested: 0, crashes: Vec::new(), paths: TextSet::new(), coverage: TextSet::new() }
    }

    /// Records the run of one input. A completed run adds its path hash and
    /// its coverage points, and a crash record when it crashed; a run that
    /// could not complete adds a crash of medium severity.
    pub fn record_run(&mut self, input: JsonValue, outcome: Result<ExecutionResult, SandboxError>)
        requires
            old(self).wf(),
            old(self).inputs_tested < u64::MAX,
        ensures
            final(self).wf(),
            final(self).inputs_tested == old(self).inputs_tested + 1,
            match outcome {
                Ok(r) => {
                    &&& final(self).paths@ == add_point(
                        old(self).paths@,
                        sha256_hex_of(path_bytes(r.stdout@, r.stderr@, r.exit_code)),
                    )
                    &&& final(self).coverage@ == add_coverage(old(self).coverage@, lines_of(r.stdout@ + r.stderr@))
                    &&& if is_crash(r) {
                        &&& final(self).crashes@.len() == old(self).crashes@.len() + 1
                        &&& final(self).crashes@.drop_last() == old(self).crashes@
                        &&& is_crash_record(final(self).crashes@.last(), input, r)
                    } else {
                        final(self).crashes@ == old(self).crashes@
                    }
                },
                Err(e) => {
                    &&& final(self).paths@ == old(self).paths@
                    &&& final(self).coverage@ == old(self).coverage@
                    &&& final(self).crashes@.len() == old(self).crashes@.len() + 1
                    &&& final(self).crashes@.drop_last() == old(self).crashes@
                    &&& final(self).crashes@.last().input == input
                    &&& final(self).crashes@.last().error_message@ == error_text(e)
                    &&& final(self).crashes@.last().severity == CrashSeverity::Medium
                    &&& final(self).crashes@.last().stack_trace@ == "Execution failed in sandbox"@
                    &&& final(self).crashes@.last().gas_used == 0
                },
            },
    {
        self.inputs_tested = self.inputs_tested + 1;
        match outcome {
            Ok(r) => {
                let hash = calculate_path_hash(&r);
                proof {
                    lemma_add_point_no_duplicates(self.paths@, hash@);
                    lemma_add_coverage_no_duplicates(self.coverage@, lines_of(r.stdout@ + r.stderr@));
                }
                self.paths.insert(chars_of(hash.as_str()));
                update_coverage(r.stdout.as_str(), r.stderr.as_str(), &mut self.coverage);
                let crashed = !r.success && match r.exit_code {
                    Some(c) => c != 0,
                    None => true,
                };
                if crashed {
                    let ghost before = self.crashes@;
                    self.crashes.push(analyze_crash(input, &r));
                    assert(self.crashes@.drop_last() =~= before);
                }
            },
            Err(e) => {
                let ghost before = self.crashes@;
                self.crashes.push(failed_run_crash(input, e.message()));
                assert(self.crashes@.drop_last() =~= before);
            },
        }
    }

    /// The campaign's outcome, given its wall-clock time in milliseconds.
    pub fn finish(self, execution_time: u64) -> (r: FuzzResult)
        requires
            self.wf(),
        ensures
            r.valid(),
            r.inputs_tested == self.inputs_tested,
            r.crashes_found@ == self.crashes@,
            r.unique_paths == self.paths@.len(),
            r.coverage_score == coverage_millis(self.coverage@.to_set().len()),
            r.execution_time == execution_time,
    {
        let coverage_score = calculate_coverage_score(&self.coverage);
        let unique_paths = self.paths.len() as u64;
        FuzzResult {
            inputs_tested: self.inputs_tested,
            crashes_found: self.crashes,
            unique_paths,
            coverage_score,
            execution_time,
        }
    }
}

} // verus!
