//! The records of the process interface, version 1.0. They differ from version 1.1 in that a
//! spawn request carries no injected files.

use vstd::prelude::*;

verus! {

/// Why a process operation was refused or failed.
#[derive(Debug, PartialEq, Eq)]
pub enum ErrorCode {
    CapabilityDenied,
    InvalidInput,
    BoundaryEscape,
    Quota,
    TooLarge,
    Closed,
    Cancelled,
    WaitTimeout,
    NoSuchProcess,
    RegistryFull,
    PersistUnsupported,
    Unknown(String),
}

/// How a process ended.
#[derive(Debug, Clone, Copy, PartialEq, Eq, Structural)]
pub struct ExitInfo {
    pub exit_code: Option<i32>,
    pub signal: Option<i32>,
}

/// What a finished foreground process left behind.
#[derive(Debug, PartialEq, Eq)]
pub struct ProcessResult {
    pub stdout: String,
    pub stderr: String,
    pub exit: ExitInfo,
}

/// Output drained from a background process.
#[derive(Debug, PartialEq, Eq)]
pub struct ReadLogsResult {
    pub stdout: String,
    pub stderr: String,
    pub running: bool,
    pub exit: Option<ExitInfo>,
}

/// What killing a background process did.
#[derive(Debug, PartialEq, Eq)]
pub struct KillResult {
    pub killed: bool,
    pub exit: Option<ExitInfo>,
    pub stdout: String,
    pub stderr: String,
}

/// Where a process is in its life.
#[derive(Debug, Clone, Copy, PartialEq, Eq, Structural)]
pub enum ProcessPhase {
    Starting,
    Running,
    Exited,
}

/// What is known of a persistent process.
#[derive(Debug, PartialEq, Eq)]
pub struct ProcessInfo {
    pub id: String,
    pub label: String,
    pub command: String,
    pub os_pid: Option<u32>,
    pub phase: ProcessPhase,
    pub exit: Option<ExitInfo>,
    pub age_ms: u64,
    pub idle_ms: u64,
    pub buffered_bytes: u64,
    pub bytes_dropped: u64,
    pub stdin_open: bool,
    pub cpu_ms: Option<u64>,
    pub mem_bytes_peak: Option<u64>,
}

/// A position in a stream of output.
#[derive(Debug, PartialEq, Eq)]
pub struct LogCursor {
    pub token: Option<String>,
}

/// Output read from a position on.
#[derive(Debug, PartialEq, Eq)]
pub struct LogChunk {
    pub data: Vec<u8>,
    pub next: LogCursor,
    pub bytes_dropped: u64,
    pub drained_eof: bool,
}

/// One of the two output streams of a process.
#[derive(Debug, Clone, Copy, PartialEq, Eq, Structural)]
pub enum LogStream {
    Stdout,
    Stderr,
}

/// The signals a capsule may send.
#[derive(Debug, Clone, Copy, PartialEq, Eq, Structural)]
pub enum ProcessSignal {
    Term,
    Hup,
    Usr1,
    Usr2,
    Int,
    Stop,
    Cont,
}

/// One environment variable of a child.
#[derive(Debug, PartialEq, Eq)]
pub struct EnvVar {
    pub key: String,
    pub value: String,
}

/// What a full ring of output does with more of it.
#[derive(Debug, Clone, Copy, PartialEq, Eq, Structural)]
pub enum OverflowPolicy {
    DropOldest,
    Backpressure,
}

/// Limits on what a child may use.
#[derive(Debug, Clone, Copy, PartialEq, Eq, Structural)]
pub struct ResourceLimits {
    pub max_memory_bytes: Option<u64>,
    pub max_cpu_secs: Option<u64>,
    pub max_pids: Option<u32>,
    pub max_open_files: Option<u32>,
}

/// What a capsule asks for when it starts a process.
#[derive(Debug, PartialEq, Eq)]
pub struct SpawnRequest {
    pub cmd: String,
    pub args: Vec<String>,
    pub stdin: Option<Vec<u8>>,
    pub env: Vec<EnvVar>,
    pub cwd: Option<String>,
    pub limits: Option<ResourceLimits>,
    pub label: Option<String>,
    pub keep_stdin_open: Option<bool>,
    pub overflow: Option<OverflowPolicy>,
    pub log_ring_bytes: Option<u32>,
    pub max_lifetime_ms: Option<u64>,
    pub idle_timeout_ms: Option<u64>,
    pub exit_retention_ms: Option<u64>,
}

} // verus!
