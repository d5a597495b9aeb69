//! The tool's settings, and what the commands derive from them.
use std::collections::HashSet;
use vstd::prelude::*;
use vstd::string::*;
use crate::command::CommandSpec;
use crate::retry::RetryPolicy;
use crate::staging::StagedBinary;
use crate::text::{decimal_digits, push_decimal};

verus! {

/// All settings.
#[derive(Debug, Clone)]
pub struct Config {
    pub general: GeneralConfig,
    pub web_server: WebServerConfig,
    pub stress_test: StressTestConfig,
    pub ai_model: AiModelConfig,
    pub overwatch: OverwatchConfig,
    pub database_ops: DatabaseOpsConfig,
}

/// Where logs and the store live.
#[derive(Debug, Clone)]
pub struct GeneralConfig {
    pub log_directory: String,
    /// `Error`, `Warn`, `Info`, `Debug` or `Trace`.
    pub log_level: String,
    pub database_path: String,
}

/// Where the status page listens.
#[derive(Debug, Clone)]
pub struct WebServerConfig {
    pub port: i64,
    pub host: String,
}

/// Defaults of the `stress` command.
#[derive(Debug, Clone)]
pub struct StressTestConfig {
    pub cpu: CpuConfig,
    /// Further arguments, passed on as they are, after the others.
    pub options: Vec<String>,
    /// Ask for a brief metrics summary.
    pub metrics: bool,
    pub verbose: bool,
}

/// The processor load of the `stress` command.
#[derive(Debug, Clone)]
pub struct CpuConfig {
    /// Number of processor workers.
    pub cores: u32,
    /// How long the load runs, as the load generator reads it (`120s`).
    pub timeout: String,
}

/// Settings of the optional prediction model.
#[derive(Debug, Clone)]
pub struct AiModelConfig {
    pub pretrained_model_path: String,
}

/// Settings of the sampling loop.
#[derive(Debug, Clone)]
pub struct OverwatchConfig {
    /// Prefix of the keys under which samples are stored.
    pub output_file: String,
    /// Seconds between rounds; zero asks for the default.
    pub interval: u32,
}

/// Settings of the storage commands.
#[derive(Debug, Clone)]
pub struct DatabaseOpsConfig {
    pub enabled: bool,
}

/// Pause between sampling rounds when none is configured.
pub const DEFAULT_SAMPLE_INTERVAL_MS: u64 = 2000;

/// Retries of a failed load run.
pub const STRESS_RETRIES: u32 = 2;

/// Pause before each retry of a load run.
pub const STRESS_BACKOFF_MS: u64 = 10000;

/// File that takes the output of a load run.
pub const STRESS_OUTPUT_FILE: &'static str = "stress_ng_output.txt";

/// The load generator's arguments for the `stress` command: the worker count
/// and duration, the optional flags, then the further options in order.
pub open spec fn stress_args_spec(c: StressTestConfig) -> Seq<Seq<char>> {
    seq!["--cpu"@, decimal_digits(c.cpu.cores as nat), "--timeout"@, c.cpu.timeout@]
        + (if c.metrics { seq!["--metrics-brief"@] } else { Seq::<Seq<char>>::empty() })
        + (if c.verbose { seq!["--verbose"@] } else { Seq::<Seq<char>>::empty() })
        + c.options@.map_values(|o: String| o@)
}

/// Strings as values.
pub open spec fn texts(v: Seq<String>) -> Seq<Seq<char>> {
    v.map_values(|s: String| s@)
}

impl StressTestConfig {
    /// The load generator's arguments for the `stress` command.
    pub fn stress_args(&self) -> (r: Vec<String>)
        ensures
            texts(r@) == stress_args_spec(*self),
    {
        let mut args: Vec<String> = Vec::new();
        args.push(String::from_str("--cpu"));
        let mut cores = String::new();
        push_decimal(&mut cores, self.cpu.cores as u64);
        args.push(cores);
        args.push(String::from_str("--timeout"));
        args.push(self.cpu.timeout.clone());
        if self.metrics {
            args.push(String::from_str("--metrics-brief"));
        }
        if self.verbose {
            args.push(String::from_str("--verbose"));
        }
        let ghost head = texts(args@);
        assert(head =~= seq!["--cpu"@, decimal_digits(self.cpu.cores as nat), "--timeout"@, self.cpu.timeout@]
            + (if self.metrics { seq!["--metrics-brief"@] } else { Seq::<Seq<char>>::empty() })
            + (if self.verbose { seq!["--verbose"@] } else { Seq::<Seq<char>>::empty() }));
        let base = args.len();
        let mut i: usize = 0;
        while i < self.options.len()
            invariant
                i <= self.options.len(),
                base == head.len(),
                args.len() == base + i,
                texts(args@) == head + texts(self.options@).take(i as int),
            decreases self.options.len() - i,
        {
            let ghost before = args@;
            args.push(self.options[i].clone());
            assert(texts(args@) =~= texts(before).push(self.options@[i as int]@));
            assert(texts(self.options@).take(i + 1) =~= texts(self.options@).take(i as int).push(self.options@[i as int]@));
            i = i + 1;
        }
        assert(texts(self.options@).take(i as int) =~= texts(self.options@));
        args
    }
}

/// How a failed load run is retried: twice, ten seconds apart.
pub fn stress_retry_policy() -> (r: RetryPolicy)
    ensures
        r.max_attempts == STRESS_RETRIES,
        r.backoff_ms == STRESS_BACKOFF_MS,
{
    RetryPolicy { max_attempts: STRESS_RETRIES, backoff_ms: STRESS_BACKOFF_MS }
}

/// The `stress` command: the staged load generator at `binary_path`, run with
/// the configured arguments, its output going to `STRESS_OUTPUT_FILE`.
pub fn stress_command(binary_path: String, config: &StressTestConfig) -> (r: CommandSpec)
    ensures
        r.program == binary_path,
        texts(r.args@) == stress_args_spec(*config),
        r.output_file matches Some(f) && f@ == STRESS_OUTPUT_FILE@,
{
    CommandSpec {
        program: binary_path,
        args: config.stress_args(),
        output_file: Some(String::from_str(STRESS_OUTPUT_FILE)),
    }
}

/// Why a staged binary is not run.
pub open spec fn not_executable_message(path: Seq<char>) -> Seq<char> {
    "binary at "@ + path + " does not have execute permissions"@
}

/// The `stress` command for a staged load generator, or, when the staged
/// file has no execute permission bit, why it is not run.
pub fn launch_stress(staged: &StagedBinary, config: &StressTestConfig) -> (r: Result<CommandSpec, String>)
    ensures
        r is Ok <==> staged.is_executable,
        r matches Ok(c) ==> c.program == staged.path && texts(c.args@) == stress_args_spec(*config)
            && (c.output_file matches Some(f) && f@ == STRESS_OUTPUT_FILE@),
        r matches Err(e) ==> e@ == not_executable_message(staged.path@),
{
    if staged.is_executable {
        Ok(stress_command(staged.path.clone(), config))
    } else {
        let mut reason = String::from_str("binary at ");
        reason.append(staged.path.as_str());
        reason.append(" does not have execute permissions");
        Err(reason)
    }
}

impl WebServerConfig {
    /// The port to bind, when the configured one is a valid TCP port (1 to 65535).
    pub fn bind_port(&self) -> (r: Option<u16>)
        ensures
            r == (if 1 <= self.port <= 65535 { Some(self.port as u16) } else { None::<u16> }),
    {
        if 1 <= self.port && self.port <= 65535 {
            Some(self.port as u16)
        } else {
            None
        }
    }
}

impl OverwatchConfig {
    /// The pause between sampling rounds, in milliseconds.
    pub fn interval_ms(&self) -> (r: u64)
        ensures
            r == (if self.interval == 0 { DEFAULT_SAMPLE_INTERVAL_MS as int } else { self.interval * 1000 }),
    {
        if self.interval == 0 {
            DEFAULT_SAMPLE_INTERVAL_MS
        } else {
            self.interval as u64 * 1000
        }
    }
}

/// A load-generator setting: processor load in percent, memory load in
/// megabytes, duration in seconds, the aggressive, keep-name and brief-log
/// switches, and the processors to pin the load to, if any.
#[derive(Debug, Clone)]
pub struct StressNgConfig {
    pub cpu_load: u32,
    pub memory_load: u32,
    pub timeout: u32,
    pub aggressive: bool,
    pub keep_name: bool,
    pub log_brief: bool,
    pub taskset: Option<HashSet<u32>>,
}

impl StressNgConfig {
    pub fn new(
        cpu_load: u32,
        memory_load: u32,
        timeout: u32,
        aggressive: bool,
        keep_name: bool,
        log_brief: bool,
        taskset: Option<HashSet<u32>>,
    ) -> (r: StressNgConfig)
        ensures
            r.cpu_load == cpu_load,
            r.memory_load == memory_load,
            r.timeout == timeout,
            r.aggressive == aggressive,
            r.keep_name == keep_name,
            r.log_brief == log_brief,
            r.taskset == taskset,
    {
        StressNgConfig { cpu_load, memory_load, timeout, aggressive, keep_name, log_brief, taskset }
    }
}

} // verus!
