//! Limits of a sandboxed run, the values derived from them, and the result
//! of a run with its trace.
use vstd::prelude::*;
use crate::json::{JsonNumber, JsonValue};

verus! {

/// Period of the control group's CPU accounting, in microseconds (100 ms).
pub const CPU_PERIOD_US: u64 = 100_000;
/// CPU shares given to every sandbox control group.
pub const CPU_SHARES: u64 = 1024;
/// Gas charged for starting a run.
pub const START_GAS: u64 = 100;
/// Gas charged for a completed run, in its trace.
pub const COMPLETE_GAS: u64 = 200;
/// Gas reported for a completed run.
pub const RUN_GAS: u64 = 300;

/// The limits that one sandboxed run is held to.
pub struct SandboxConfig {
    /// Wall-clock limit, in milliseconds.
    pub time_limit_ms: u64,
    /// Address-space and control-group memory limit, in bytes.
    pub memory_limit: u64,
    /// Share of one CPU, in percent (1 to 100).
    pub cpu_limit: u64,
    pub network_disabled: bool,
    /// Largest file the run may write, in bytes.
    pub max_file_size: u64,
    pub max_processes: u64,
    /// Size of the scratch volume, in bytes.
    pub disk_quota: u64,
}

impl SandboxConfig {
    /// Every limit positive, and the CPU share at most 100 percent.
    pub open spec fn valid(&self) -> bool {
        &&& self.time_limit_ms > 0
        &&& self.memory_limit > 0
        &&& 1 <= self.cpu_limit <= 100
        &&& self.max_file_size > 0
        &&& self.max_processes > 0
        &&& self.disk_quota > 0
    }

    /// 30 s, 512 MB memory, 50% CPU, no network, 10 MB files, 10 processes,
    /// 100 MB disk.
    pub fn default_config() -> (c: SandboxConfig)
        ensures
            c.valid(),
            c.time_limit_ms == 30_000,
            c.memory_limit == 512 * 1024 * 1024,
            c.cpu_limit == 50,
            c.network_disabled,
            c.max_file_size == 10 * 1024 * 1024,
            c.max_processes == 10,
            c.disk_quota == 100 * 1024 * 1024,
    {
        SandboxConfig {
            time_limit_ms: 30_000,
            memory_limit: 512 * 1024 * 1024,
            cpu_limit: 50,
            network_disabled: true,
            max_file_size: 10 * 1024 * 1024,
            max_processes: 10,
            disk_quota: 100 * 1024 * 1024,
        }
    }

    /// The control group's CPU quota per period, in microseconds.
    pub fn cpu_quota_us(&self) -> (q: u64)
        requires
            self.cpu_limit <= 100,
        ensures
            q == self.cpu_limit * CPU_PERIOD_US / 100,
    {
        self.cpu_limit * CPU_PERIOD_US / 100
    }

    /// The CPU-seconds resource limit: the time limit rounded up to whole seconds.
    pub fn cpu_seconds(&self) -> (s: u64)
        ensures
            s * 1000 >= self.time_limit_ms,
            s == 0 || (s - 1) * 1000 < self.time_limit_ms,
    {
        let whole = self.time_limit_ms / 1000;
        if self.time_limit_ms % 1000 == 0 {
            whole
        } else {
            whole + 1
        }
    }

    /// Size of the scratch volume, in whole kibibytes.
    pub fn volume_size_kb(&self) -> (k: u64)
        ensures
            k == self.disk_quota / 1024,
    {
        self.disk_quota / 1024
    }
}

impl Default for SandboxConfig {
    fn default() -> (c: SandboxConfig)
        ensures
            c.valid(),
            c.time_limit_ms == 30_000,
            c.cpu_limit == 50,
    {
        SandboxConfig::default_config()
    }
}

/// The kinds of trace events.
#[derive(PartialEq, Eq, Structural, Clone, Copy, Debug)]
pub enum TraceKind {
    ExecutionStart,
    ExecutionComplete,
    ExecutionTimeout,
    CompilationStart,
    StageBegin,
    StageEnd,
}

/// The name under which an event of kind `k` is reported.
pub open spec fn trace_kind_text(k: TraceKind) -> Seq<char> {
    match k {
        TraceKind::ExecutionStart => "execution_start"@,
        TraceKind::ExecutionComplete => "execution_complete"@,
        TraceKind::ExecutionTimeout => "execution_timeout"@,
        TraceKind::CompilationStart => "compilation_start"@,
        TraceKind::StageBegin => "stage_begin"@,
        TraceKind::StageEnd => "stage_end"@,
    }
}

impl TraceKind {
    /// The name under which the event is reported.
    pub fn name(&self) -> (s: &'static str)
        ensures
            s@ == trace_kind_text(*self),
    {
        match self {
            TraceKind::ExecutionStart => "execution_start",
            TraceKind::ExecutionComplete => "execution_complete",
            TraceKind::ExecutionTimeout => "execution_timeout",
            TraceKind::CompilationStart => "compilation_start",
            TraceKind::StageBegin => "stage_begin",
            TraceKind::StageEnd => "stage_end",
        }
    }
}

/// One event of a trace.
pub struct TraceEvent {
    /// Nanoseconds since the run started.
    pub timestamp: u64,
    pub event_type: TraceKind,
    pub data: JsonValue,
    pub gas_used: u64,
    pub memory_used: u64,
}

/// Timestamps never decrease along the trace.
pub open spec fn chronological(events: Seq<TraceEvent>) -> bool {
    forall|i: int, j: int| 0 <= i <= j < events.len() ==> events[i].timestamp <= events[j].timestamp
}

/// What a sandboxed run produced.
pub struct ExecutionResult {
    pub success: bool,
    pub exit_code: Option<i32>,
    pub stdout: String,
    pub stderr: String,
    /// Wall-clock time of the run, in nanoseconds.
    pub execution_time: u64,
    pub memory_used: u64,
    pub gas_used: u64,
    pub trace_events: Vec<TraceEvent>,
}

impl ExecutionResult {
    /// Success means exit code zero, and the trace is in order.
    pub open spec fn valid(&self) -> bool {
        &&& self.success <==> self.exit_code == Some(0i32)
        &&& chronological(self.trace_events@)
    }
}

/// Why a sandboxed run did not produce a result.
pub enum SandboxError {
    /// The command could not be started.
    SpawnFailed(String),
    /// The wall-clock limit ran out; the trace ends with the timeout event.
    Timeout(Vec<TraceEvent>),
    /// A memory, file-size or process limit was hit.
    LimitExceeded(String),
    /// The control group or the scratch volume could not be set up.
    IsolationSetupFailed(String),
    /// Reading or writing the run's pipes or files failed.
    InternalIO(String),
}

/// The description of an error: its text, or for a timeout "Execution timed out".
pub open spec fn error_text(e: SandboxError) -> Seq<char> {
    match e {
        SandboxError::SpawnFailed(t) => t@,
        SandboxError::Timeout(_) => "Execution timed out"@,
        SandboxError::LimitExceeded(t) => t@,
        SandboxError::IsolationSetupFailed(t) => t@,
        SandboxError::InternalIO(t) => t@,
    }
}

impl SandboxError {
    /// A one-line description of the error.
    pub fn message(&self) -> (m: String)
        ensures
            m@ == error_text(*self),
    {
        match self {
            SandboxError::SpawnFailed(m) => m.clone(),
            SandboxError::Timeout(_) => String::from_str("Execution timed out"),
            SandboxError::LimitExceeded(m) => m.clone(),
            SandboxError::IsolationSetupFailed(m) => m.clone(),
            SandboxError::InternalIO(m) => m.clone(),
        }
    }
}

/// How the child process ended, as the process runner saw it.
pub enum ChildOutcome {
    /// It exited, by itself or by a signal (then without exit code).
    Exited { exit_code: Option<i32>, stdout: String, stderr: String },
    /// The wall-clock limit ran out and it was killed.
    TimedOut,
    /// It could not be run to the end.
    Failed(SandboxError),
}

fn member(key: &str, value: JsonValue) -> (m: (String, JsonValue))
    ensures
        m.0@ == key@,
        m.1 == value,
{
    (String::from_str(key), value)
}

/// A signed integer as a JSON number.
pub fn int_value(x: i64) -> (v: JsonValue)
    ensures
        x >= 0 ==> v == JsonValue::Number(JsonNumber::PosInt(x as u64)),
        x < 0 ==> v == JsonValue::Number(JsonNumber::NegInt(x)),
{
    if x >= 0 {
        JsonValue::Number(JsonNumber::PosInt(x as u64))
    } else {
        JsonValue::Number(JsonNumber::NegInt(x))
    }
}

/// `v` is the JSON string holding `t`.
pub open spec fn is_text(v: JsonValue, t: Seq<char>) -> bool {
    v matches JsonValue::Text(s) && s@ == t
}

/// The payload of a start event: the command, its arguments and its
/// working directory, under those names.
pub open spec fn start_payload(data: JsonValue, command: Seq<char>, args: Seq<String>, working_dir: Seq<char>) -> bool {
    data matches JsonValue::Object(m) && m@.len() == 3 && m@[0].0@ == "command"@ && is_text(m@[0].1, command)
        && m@[1].0@ == "args"@ && (m@[1].1 matches JsonValue::Array(a) && a@.len() == args.len() && forall|i: int|
        0 <= i < args.len() ==> is_text(#[trigger] a@[i], args[i]@)) && m@[2].0@ == "working_dir"@ && is_text(
        m@[2].1,
        working_dir,
    )
}

/// An exit code as JSON: a number, or null when there is none.
pub open spec fn exit_code_value(c: Option<i32>) -> JsonValue {
    match c {
        Some(x) => if x >= 0 {
            JsonValue::Number(JsonNumber::PosInt(x as u64))
        } else {
            JsonValue::Number(JsonNumber::NegInt(x as i64))
        },
        None => JsonValue::Null,
    }
}

/// The payload of a completion event: the exit code and the byte lengths
/// of stdout and stderr.
pub open spec fn complete_payload(data: JsonValue, exit_code: Option<i32>, stdout: Seq<char>, stderr: Seq<char>) -> bool {
    data matches JsonValue::Object(m) && m@.len() == 3 && m@[0].0@ == "exit_code"@ && m@[0].1 == exit_code_value(
        exit_code,
    ) && m@[1].0@ == "stdout_length"@ && m@[1].1 == JsonValue::Number(
        JsonNumber::PosInt(vstd::utf8::encode_utf8(stdout).len() as usize as u64),
    ) && m@[2].0@ == "stderr_length"@ && m@[2].1 == JsonValue::Number(
        JsonNumber::PosInt(vstd::utf8::encode_utf8(stderr).len() as usize as u64),
    )
}

/// The payload of a timeout event: the reason, that the time limit ran out.
pub open spec fn timeout_payload(data: JsonValue) -> bool {
    data matches JsonValue::Object(m) && m@.len() == 1 && m@[0].0@ == "reason"@ && is_text(m@[0].1, "time_limit_exceeded"@)
}

/// The event that opens the trace of a run: the command, its arguments and
/// its working directory, at time zero.
pub fn start_event(command: &str, args: &Vec<String>, working_dir: &str) -> (e: TraceEvent)
    ensures
        e.timestamp == 0,
        e.event_type == TraceKind::ExecutionStart,
        e.gas_used == START_GAS,
        e.memory_used == 0,
        start_payload(e.data, command@, args@, working_dir@),
{
    let mut arg_values: Vec<JsonValue> = Vec::new();
    for i in 0..args.len()
        invariant
            arg_values@.len() == i,
            forall|j: int| 0 <= j < i ==> is_text(#[trigger] arg_values@[j], args@[j]@),
    {
        arg_values.push(JsonValue::Text(args[i].clone()));
    }
    let mut members: Vec<(String, JsonValue)> = Vec::new();
    members.push(member("command", JsonValue::Text(String::from_str(command))));
    members.push(member("args", JsonValue::Array(arg_values)));
    members.push(member("working_dir", JsonValue::Text(String::from_str(working_dir))));
    TraceEvent {
        timestamp: 0,
        event_type: TraceKind::ExecutionStart,
        data: JsonValue::Object(members),
        gas_used: START_GAS,
        memory_used: 0,
    }
}

/// Turns the way the child ended into the run's result. A completed run has
/// the start event and a completion event at `elapsed`; a run out of time
/// fails with `Timeout`, whose trace ends with the timeout event.
pub fn finish_run(
    config: &SandboxConfig,
    start: TraceEvent,
    elapsed: u64,
    outcome: ChildOutcome,
) -> (r: Result<ExecutionResult, SandboxError>)
    requires
        start.timestamp <= elapsed,
    ensures
        match outcome {
            ChildOutcome::Exited { exit_code, stdout, stderr } => {
                &&& r matches Ok(res)
                &&& res.valid()
                &&& res.success == (exit_code == Some(0i32))
                &&& res.exit_code == exit_code
                &&& res.stdout == stdout
                &&& res.stderr == stderr
                &&& res.execution_time == elapsed
                &&& res.memory_used == config.memory_limit / 2
                &&& res.gas_used == RUN_GAS
                &&& res.trace_events@.len() == 2
                &&& res.trace_events@[0] == start
                &&& res.trace_events@[1].event_type == TraceKind::ExecutionComplete
                &&& res.trace_events@[1].timestamp == elapsed
                &&& res.trace_events@[1].gas_used == COMPLETE_GAS
                &&& res.trace_events@[1].memory_used == config.memory_limit / 2
                &&& complete_payload(res.trace_events@[1].data, exit_code, stdout@, stderr@)
            },
            ChildOutcome::TimedOut => {
                &&& r matches Err(SandboxError::Timeout(t))
                &&& chronological(t@)
                &&& t@.len() == 2
                &&& t@[0] == start
                &&& t@[1].event_type == TraceKind::ExecutionTimeout
                &&& t@[1].timestamp == elapsed
                &&& t@[1].gas_used == 0
                &&& t@[1].memory_used == 0
                &&& timeout_payload(t@[1].data)
            },
            ChildOutcome::Failed(e) => r == Err::<ExecutionResult, SandboxError>(e),
        },
{
    match outcome {
        ChildOutcome::Exited { exit_code, stdout, stderr } => {
            let code_value = match exit_code {
                Some(c) => int_value(c as i64),
                None => JsonValue::Null,
            };
            let mut members: Vec<(String, JsonValue)> = Vec::new();
            members.push(member("exit_code", code_value));
            members.push(member("stdout_length", JsonValue::Number(JsonNumber::PosInt(stdout.as_str().len() as u64))));
            members.push(member("stderr_length", JsonValue::Number(JsonNumber::PosInt(stderr.as_str().len() as u64))));
            let complete = TraceEvent {
                timestamp: elapsed,
                event_type: TraceKind::ExecutionComplete,
                data: JsonValue::Object(members),
                gas_used: COMPLETE_GAS,
                memory_used: config.memory_limit / 2,
            };
            let mut trace: Vec<TraceEvent> = Vec::new();
            trace.push(start);
            trace.push(complete);
            let success = match exit_code {
                Some(c) => c == 0,
                None => false,
            };
            Ok(ExecutionResult {
                success,
                exit_code,
                stdout,
                stderr,
                execution_time: elapsed,
                memory_used: config.memory_limit / 2,
                gas_used: RUN_GAS,
                trace_events: trace,
            })
        },
        ChildOutcome::TimedOut => {
            let mut members: Vec<(String, JsonValue)> = Vec::new();
            members.push(member("reason", JsonValue::Text(String::from_str("time_limit_exceeded"))));
            let timeout = TraceEvent {
                timestamp: elapsed,
                event_type: TraceKind::ExecutionTimeout,
                data: JsonValue::Object(members),
                gas_used: 0,
                memory_used: 0,
            };
            let mut trace: Vec<TraceEvent> = Vec::new();
            trace.push(start);
            trace.push(timeout);
            Err(SandboxError::Timeout(trace))
        },
        ChildOutcome::Failed(e) => Err(e),
    }
}

} // verus!
