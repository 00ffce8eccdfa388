//! Bridging between the two versions of the process interface. Requests travel from version 1.0
//! to version 1.1 and answers travel back; nothing but the absent injections is lost or made up.

use vstd::prelude::*;

use crate::process::types as v11;
use crate::process::v10;

verus! {

/// The code of version 1.0 with the same name and the same message.
pub open spec fn err_as_v10(e: v11::ErrorCode) -> v10::ErrorCode {
    match e {
        v11::ErrorCode::CapabilityDenied => v10::ErrorCode::CapabilityDenied,
        v11::ErrorCode::InvalidInput => v10::ErrorCode::InvalidInput,
        v11::ErrorCode::BoundaryEscape => v10::ErrorCode::BoundaryEscape,
        v11::ErrorCode::Quota => v10::ErrorCode::Quota,
        v11::ErrorCode::TooLarge => v10::ErrorCode::TooLarge,
        v11::ErrorCode::Closed => v10::ErrorCode::Closed,
        v11::ErrorCode::Cancelled => v10::ErrorCode::Cancelled,
        v11::ErrorCode::WaitTimeout => v10::ErrorCode::WaitTimeout,
        v11::ErrorCode::NoSuchProcess => v10::ErrorCode::NoSuchProcess,
        v11::ErrorCode::RegistryFull => v10::ErrorCode::RegistryFull,
        v11::ErrorCode::PersistUnsupported => v10::ErrorCode::PersistUnsupported,
        v11::ErrorCode::Unknown(s) => v10::ErrorCode::Unknown(s),
    }
}

/// The exit of version 1.0 with the same fields.
pub open spec fn exit_as_v10(e: v11::ExitInfo) -> v10::ExitInfo {
    v10::ExitInfo { exit_code: e.exit_code, signal: e.signal }
}

/// The optional exit of version 1.0 with the same fields.
pub open spec fn opt_exit_as_v10(e: Option<v11::ExitInfo>) -> Option<v10::ExitInfo> {
    match e {
        Some(exit) => Some(exit_as_v10(exit)),
        None => None,
    }
}

/// The phase of version 1.0 with the same name.
pub open spec fn phase_as_v10(p: v11::ProcessPhase) -> v10::ProcessPhase {
    match p {
        v11::ProcessPhase::Starting => v10::ProcessPhase::Starting,
        v11::ProcessPhase::Running => v10::ProcessPhase::Running,
        v11::ProcessPhase::Exited => v10::ProcessPhase::Exited,
    }
}

/// The description of version 1.0 with the same fields.
pub open spec fn info_as_v10(i: v11::ProcessInfo) -> v10::ProcessInfo {
    v10::ProcessInfo {
        id: i.id,
        label: i.label,
        command: i.command,
        os_pid: i.os_pid,
        phase: phase_as_v10(i.phase),
        exit: opt_exit_as_v10(i.exit),
        age_ms: i.age_ms,
        idle_ms: i.idle_ms,
        buffered_bytes: i.buffered_bytes,
        bytes_dropped: i.bytes_dropped,
        stdin_open: i.stdin_open,
        cpu_ms: i.cpu_ms,
        mem_bytes_peak: i.mem_bytes_peak,
    }
}

/// Maps an error to the code of the same name. No two errors share an image, and every error of
/// version 1.0 is one.
pub fn err_v11_to_v10(e: v11::ErrorCode) -> (r: v10::ErrorCode)
    ensures
        r == err_as_v10(e),
{
    match e {
        v11::ErrorCode::CapabilityDenied => v10::ErrorCode::CapabilityDenied,
        v11::ErrorCode::InvalidInput => v10::ErrorCode::InvalidInput,
        v11::ErrorCode::BoundaryEscape => v10::ErrorCode::BoundaryEscape,
        v11::ErrorCode::Quota => v10::ErrorCode::Quota,
        v11::ErrorCode::TooLarge => v10::ErrorCode::TooLarge,
        v11::ErrorCode::Closed => v10::ErrorCode::Closed,
        v11::ErrorCode::Cancelled => v10::ErrorCode::Cancelled,
        v11::ErrorCode::WaitTimeout => v10::ErrorCode::WaitTimeout,
        v11::ErrorCode::NoSuchProcess => v10::ErrorCode::NoSuchProcess,
        v11::ErrorCode::RegistryFull => v10::ErrorCode::RegistryFull,
        v11::ErrorCode::PersistUnsupported => v10::ErrorCode::PersistUnsupported,
        v11::ErrorCode::Unknown(s) => v10::ErrorCode::Unknown(s),
    }
}

/// Carries an exit over.
pub fn exit_v11_to_v10(e: v11::ExitInfo) -> (r: v10::ExitInfo)
    ensures
        r == exit_as_v10(e),
{
    v10::ExitInfo { exit_code: e.exit_code, signal: e.signal }
}

/// Carries an optional exit over.
fn opt_exit_v11_to_v10(e: Option<v11::ExitInfo>) -> (r: Option<v10::ExitInfo>)
    ensures
        r == opt_exit_as_v10(e),
{
    match e {
        Some(exit) => Some(exit_v11_to_v10(exit)),
        None => None,
    }
}

/// Carries the result of a foreground process over.
pub fn process_result_v11_to_v10(r: v11::ProcessResult) -> (out: v10::ProcessResult)
    ensures
        out == (v10::ProcessResult { stdout: r.stdout, stderr: r.stderr, exit: exit_as_v10(r.exit) }),
{
    v10::ProcessResult { stdout: r.stdout, stderr: r.stderr, exit: exit_v11_to_v10(r.exit) }
}

/// Carries drained output over.
pub fn read_logs_v11_to_v10(r: v11::ReadLogsResult) -> (out: v10::ReadLogsResult)
    ensures
        out == (v10::ReadLogsResult {
            stdout: r.stdout,
            stderr: r.stderr,
            running: r.running,
            exit: opt_exit_as_v10(r.exit),
        }),
{
    v10::ReadLogsResult {
        stdout: r.stdout,
        stderr: r.stderr,
        running: r.running,
        exit: opt_exit_v11_to_v10(r.exit),
    }
}

/// Carries the result of a kill over.
pub fn kill_result_v11_to_v10(r: v11::KillResult) -> (out: v10::KillResult)
    ensures
        out == (v10::KillResult {
            killed: r.killed,
            exit: opt_exit_as_v10(r.exit),
            stdout: r.stdout,
            stderr: r.stderr,
        }),
{
    v10::KillResult {
        killed: r.killed,
        exit: opt_exit_v11_to_v10(r.exit),
        stdout: r.stdout,
        stderr: r.stderr,
    }
}

/// Carries a phase over.
pub fn phase_v11_to_v10(p: v11::ProcessPhase) -> (r: v10::ProcessPhase)
    ensures
        r == phase_as_v10(p),
{
    match p {
        v11::ProcessPhase::Starting => v10::ProcessPhase::Starting,
        v11::ProcessPhase::Running => v10::ProcessPhase::Running,
        v11::ProcessPhase::Exited => v10::ProcessPhase::Exited,
    }
}

/// Carries a description over.
pub fn process_info_v11_to_v10(i: v11::ProcessInfo) -> (r: v10::ProcessInfo)
    ensures
        r == info_as_v10(i),
{
    v10::ProcessInfo {
        id: i.id,
        label: i.label,
        command: i.command,
        os_pid: i.os_pid,
        phase: phase_v11_to_v10(i.phase),
        exit: opt_exit_v11_to_v10(i.exit),
        age_ms: i.age_ms,
        idle_ms: i.idle_ms,
        buffered_bytes: i.buffered_bytes,
        bytes_dropped: i.bytes_dropped,
        stdin_open: i.stdin_open,
        cpu_ms: i.cpu_ms,
        mem_bytes_peak: i.mem_bytes_peak,
    }
}

/// Carries a list of descriptions over, one for one.
pub fn process_infos_v11_to_v10(infos: Vec<v11::ProcessInfo>) -> (out: Vec<v10::ProcessInfo>)
    ensures
        out@ == infos@.map_values(|i: v11::ProcessInfo| info_as_v10(i)),
{
    let mut out: Vec<v10::ProcessInfo> = Vec::new();
    for info in it: infos
        invariant
            it.seq() == infos@,
            out@ == infos@.take(it.index() as int).map_values(|i: v11::ProcessInfo| info_as_v10(i)),
    {
        out.push(process_info_v11_to_v10(info));
    }
    out
}

/// Carries a cursor back.
pub fn cursor_v11_to_v10(c: v11::LogCursor) -> (r: v10::LogCursor)
    ensures
        r.token == c.token,
{
    v10::LogCursor { token: c.token }
}

/// Carries a cursor forth.
pub fn cursor_v10_to_v11(c: v10::LogCursor) -> (r: v11::LogCursor)
    ensures
        r.token == c.token,
{
    v11::LogCursor { token: c.token }
}

/// Carries a piece of output over.
pub fn log_chunk_v11_to_v10(c: v11::LogChunk) -> (r: v10::LogChunk)
    ensures
        r == (v10::LogChunk {
            data: c.data,
            next: (v10::LogCursor { token: c.next.token }),
            bytes_dropped: c.bytes_dropped,
            drained_eof: c.drained_eof,
        }),
{
    v10::LogChunk {
        data: c.data,
        next: cursor_v11_to_v10(c.next),
        bytes_dropped: c.bytes_dropped,
        drained_eof: c.drained_eof,
    }
}

/// The stream of version 1.1 with the same name.
pub open spec fn stream_as_v11(s: v10::LogStream) -> v11::LogStream {
    match s {
        v10::LogStream::Stdout => v11::LogStream::Stdout,
        v10::LogStream::Stderr => v11::LogStream::Stderr,
    }
}

/// The signal of version 1.1 with the same name.
pub open spec fn signal_as_v11(s: v10::ProcessSignal) -> v11::ProcessSignal {
    match s {
        v10::ProcessSignal::Term => v11::ProcessSignal::Term,
        v10::ProcessSignal::Hup => v11::ProcessSignal::Hup,
        v10::ProcessSignal::Usr1 => v11::ProcessSignal::Usr1,
        v10::ProcessSignal::Usr2 => v11::ProcessSignal::Usr2,
        v10::ProcessSignal::Int => v11::ProcessSignal::Int,
        v10::ProcessSignal::Stop => v11::ProcessSignal::Stop,
        v10::ProcessSignal::Cont => v11::ProcessSignal::Cont,
    }
}

/// The policy of version 1.1 with the same name.
pub open spec fn overflow_as_v11(o: v10::OverflowPolicy) -> v11::OverflowPolicy {
    match o {
        v10::OverflowPolicy::DropOldest => v11::OverflowPolicy::DropOldest,
        v10::OverflowPolicy::Backpressure => v11::OverflowPolicy::Backpressure,
    }
}

/// The limits of version 1.1 with the same fields.
pub open spec fn limits_as_v11(l: v10::ResourceLimits) -> v11::ResourceLimits {
    v11::ResourceLimits {
        max_memory_bytes: l.max_memory_bytes,
        max_cpu_secs: l.max_cpu_secs,
        max_pids: l.max_pids,
        max_open_files: l.max_open_files,
    }
}

/// The variable of version 1.1 with the same fields.
pub open spec fn env_as_v11(e: v10::EnvVar) -> v11::EnvVar {
    v11::EnvVar { key: e.key, value: e.value }
}

/// Names the stream in version 1.1.
pub fn log_stream_v10_to_v11(s: v10::LogStream) -> (r: v11::LogStream)
    ensures
        r == stream_as_v11(s),
{
    match s {
        v10::LogStream::Stdout => v11::LogStream::Stdout,
        v10::LogStream::Stderr => v11::LogStream::Stderr,
    }
}

/// Names the signal in version 1.1.
pub fn signal_v10_to_v11(s: v10::ProcessSignal) -> (r: v11::ProcessSignal)
    ensures
        r == signal_as_v11(s),
{
    match s {
        v10::ProcessSignal::Term => v11::ProcessSignal::Term,
        v10::ProcessSignal::Hup => v11::ProcessSignal::Hup,
        v10::ProcessSignal::Usr1 => v11::ProcessSignal::Usr1,
        v10::ProcessSignal::Usr2 => v11::ProcessSignal::Usr2,
        v10::ProcessSignal::Int => v11::ProcessSignal::Int,
        v10::ProcessSignal::Stop => v11::ProcessSignal::Stop,
        v10::ProcessSignal::Cont => v11::ProcessSignal::Cont,
    }
}

/// Carries an environment variable over.
pub fn env_var_v10_to_v11(e: v10::EnvVar) -> (r: v11::EnvVar)
    ensures
        r == env_as_v11(e),
{
    v11::EnvVar { key: e.key, value: e.value }
}

/// Names the policy in version 1.1.
pub fn overflow_v10_to_v11(o: v10::OverflowPolicy) -> (r: v11::OverflowPolicy)
    ensures
        r == overflow_as_v11(o),
{
    match o {
        v10::OverflowPolicy::DropOldest => v11::OverflowPolicy::DropOldest,
        v10::OverflowPolicy::Backpressure => v11::OverflowPolicy::Backpressure,
    }
}

/// Carries limits over.
pub fn resource_limits_v10_to_v11(l: v10::ResourceLimits) -> (r: v11::ResourceLimits)
    ensures
        r == limits_as_v11(l),
{
    v11::ResourceLimits {
        max_memory_bytes: l.max_memory_bytes,
        max_cpu_secs: l.max_cpu_secs,
        max_pids: l.max_pids,
        max_open_files: l.max_open_files,
    }
}

/// `out` asks for what `r` asks for, and for no injected file.
pub open spec fn same_request(r: v10::SpawnRequest, out: v11::SpawnRequest) -> bool {
    &&& out.cmd == r.cmd
    &&& out.args == r.args
    &&& out.stdin == r.stdin
    &&& out.env@ == r.env@.map_values(|e: v10::EnvVar| env_as_v11(e))
    &&& out.cwd == r.cwd
    &&& out.limits == (match r.limits {
        Some(l) => Some(limits_as_v11(l)),
        None => None,
    })
    &&& out.label == r.label
    &&& out.keep_stdin_open == r.keep_stdin_open
    &&& out.overflow == (match r.overflow {
        Some(o) => Some(overflow_as_v11(o)),
        None => None,
    })
    &&& out.log_ring_bytes == r.log_ring_bytes
    &&& out.max_lifetime_ms == r.max_lifetime_ms
    &&& out.idle_timeout_ms == r.idle_timeout_ms
    &&& out.exit_retention_ms == r.exit_retention_ms
    &&& out.file_injections@.len() == 0
}

/// A request of version 1.0 becomes one of version 1.1 that injects nothing.
pub fn spawn_request_v10_to_v11(r: v10::SpawnRequest) -> (out: v11::SpawnRequest)
    ensures
        same_request(r, out),
{
    let ghost asked = r.env@;
    let mut env: Vec<v11::EnvVar> = Vec::new();
    for var in it: r.env
        invariant
            it.seq() == asked,
            env@ == asked.take(it.index() as int).map_values(|e: v10::EnvVar| env_as_v11(e)),
    {
        env.push(env_var_v10_to_v11(var));
    }
    assert(env@ =~= asked.map_values(|e: v10::EnvVar| env_as_v11(e)));
    let limits = match r.limits {
        Some(l) => Some(resource_limits_v10_to_v11(l)),
        None => None,
    };
    let overflow = match r.overflow {
        Some(o) => Some(overflow_v10_to_v11(o)),
        None => None,
    };
    v11::SpawnRequest {
        cmd: r.cmd,
        args: r.args,
        stdin: r.stdin,
        env,
        cwd: r.cwd,
        limits,
        label: r.label,
        keep_stdin_open: r.keep_stdin_open,
        overflow,
        log_ring_bytes: r.log_ring_bytes,
        max_lifetime_ms: r.max_lifetime_ms,
        idle_timeout_ms: r.idle_timeout_ms,
        exit_retention_ms: r.exit_retention_ms,
        file_injections: Vec::new(),
    }
}

/// Two different errors never become the same one, and every error of version 1.0 is the image
/// of an error of version 1.1.
pub proof fn law_errors_match_one_to_one(a: v11::ErrorCode, b: v11::ErrorCode, c: v10::ErrorCode)
    ensures
        err_as_v10(a) == err_as_v10(b) ==> a == b,
        exists|e: v11::ErrorCode| err_as_v10(e) == c,
{
    let e = match c {
        v10::ErrorCode::CapabilityDenied => v11::ErrorCode::CapabilityDenied,
        v10::ErrorCode::InvalidInput => v11::ErrorCode::InvalidInput,
        v10::ErrorCode::BoundaryEscape => v11::ErrorCode::BoundaryEscape,
        v10::ErrorCode::Quota => v11::ErrorCode::Quota,
        v10::ErrorCode::TooLarge => v11::ErrorCode::TooLarge,
        v10::ErrorCode::Closed => v11::ErrorCode::Closed,
        v10::ErrorCode::Cancelled => v11::ErrorCode::Cancelled,
        v10::ErrorCode::WaitTimeout => v11::ErrorCode::WaitTimeout,
        v10::ErrorCode::NoSuchProcess => v11::ErrorCode::NoSuchProcess,
        v10::ErrorCode::RegistryFull => v11::ErrorCode::RegistryFull,
        v10::ErrorCode::PersistUnsupported => v11::ErrorCode::PersistUnsupported,
        v10::ErrorCode::Unknown(s) => v11::ErrorCode::Unknown(s),
    };
    assert(err_as_v10(e) == c);
}

/// A description loses nothing on its way back: two descriptions that look the same in version
/// 1.0 are the same.
pub proof fn law_info_keeps_every_field(a: v11::ProcessInfo, b: v11::ProcessInfo)
    ensures
        info_as_v10(a) == info_as_v10(b) ==> a == b,
{
}

/// Different signals, streams and policies stay different on their way forth.
pub proof fn law_inputs_stay_apart(
    s1: v10::ProcessSignal,
    s2: v10::ProcessSignal,
    l1: v10::LogStream,
    l2: v10::LogStream,
    o1: v10::OverflowPolicy,
    o2: v10::OverflowPolicy,
)
    ensures
        signal_as_v11(s1) == signal_as_v11(s2) ==> s1 == s2,
        stream_as_v11(l1) == stream_as_v11(l2) ==> l1 == l2,
        overflow_as_v11(o1) == overflow_as_v11(o2) ==> o1 == o2,
{
}

} // verus!
