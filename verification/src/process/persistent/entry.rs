//! One persistent process: what it was started with and what has become of it.

use vstd::prelude::*;

use crate::process::persistent::config::{MAX_LOG_RING_BYTES, MIN_LOG_RING_BYTES};
use crate::process::persistent::ring::{LogRing, RingView};
use crate::process::types::{ExitInfo, LogStream, ProcessInfo, ProcessPhase};

verus! {

/// How many bytes a reader takes from a pipe at a time. It is no more than the smallest ring, so
/// that a whole chunk always fits into an empty ring.
pub const READER_CHUNK_BYTES: usize = 4096;

/// How a process ended.
#[derive(Debug, Clone, Copy, PartialEq, Eq, Structural)]
pub struct ExitRecord {
    pub exit_code: Option<i32>,
    pub signal: Option<i32>,
}

/// Whether a process still runs.
#[derive(Debug, Clone, Copy, PartialEq, Eq, Structural)]
pub enum Phase {
    Running,
    Exited,
}

/// The state of a process that changes while it is kept. Times are in milliseconds.
pub struct ProcessCore {
    pub phase: Phase,
    pub exit: Option<ExitRecord>,
    pub exited_at: Option<u64>,
    pub stdout: LogRing,
    pub stderr: LogRing,
    /// Whether the pipe to the process is in the registry; a writer takes it out for the time of
    /// one write.
    pub stdin_held: bool,
    pub stdin_open: bool,
    pub last_touch: u64,
}

/// A process and what it was started with.
pub struct PersistentEntry {
    pub id: String,
    pub creator: String,
    pub capsule_id: String,
    pub label: String,
    pub command: String,
    pub os_pid: u32,
    pub spawned_at: u64,
    pub max_lifetime: u64,
    pub idle_timeout: u64,
    pub exit_retention: u64,
    pub core: ProcessCore,
}

/// A process as a value.
pub struct EntryView {
    pub id: Seq<char>,
    pub creator: Seq<char>,
    pub capsule_id: Seq<char>,
    pub label: Seq<char>,
    pub command: Seq<char>,
    pub os_pid: u32,
    pub spawned_at: u64,
    pub max_lifetime: u64,
    pub idle_timeout: u64,
    pub exit_retention: u64,
    pub phase: Phase,
    pub exit: Option<ExitRecord>,
    pub exited_at: Option<u64>,
    pub stdout: RingView,
    pub stderr: RingView,
    pub stdin_held: bool,
    pub stdin_open: bool,
    pub last_touch: u64,
}

/// The time from `then` to `now`, or nothing if `then` lies ahead.
pub open spec fn elapsed(now: u64, then: u64) -> int {
    if now >= then {
        now - then
    } else {
        0
    }
}

/// The time from `then` to `now`, or nothing if `then` lies ahead.
pub fn elapsed_ms(now: u64, then: u64) -> (ms: u64)
    ensures
        ms == elapsed(now, then),
{
    if now >= then {
        now - then
    } else {
        0
    }
}

impl ExitRecord {
    /// The exit as a capsule sees it.
    pub open spec fn shown(self) -> ExitInfo {
        ExitInfo { exit_code: self.exit_code, signal: self.signal }
    }

    /// The exit as a capsule sees it.
    pub fn to_info(self) -> (info: ExitInfo)
        ensures
            info == self.shown(),
    {
        ExitInfo { exit_code: self.exit_code, signal: self.signal }
    }
}

/// The optional exit as a capsule sees it.
pub open spec fn shown_exit(exit: Option<ExitRecord>) -> Option<ExitInfo> {
    match exit {
        Some(record) => Some(record.shown()),
        None => None,
    }
}

/// The optional exit as a capsule sees it.
pub fn exit_info(exit: Option<ExitRecord>) -> (info: Option<ExitInfo>)
    ensures
        info == shown_exit(exit),
{
    match exit {
        Some(record) => Some(record.to_info()),
        None => None,
    }
}

impl Phase {
    /// The phase as a capsule sees it. No process is ever seen starting.
    pub open spec fn shown(self) -> ProcessPhase {
        match self {
            Phase::Running => ProcessPhase::Running,
            Phase::Exited => ProcessPhase::Exited,
        }
    }

    /// The phase as a capsule sees it.
    pub fn to_phase(self) -> (phase: ProcessPhase)
        ensures
            phase == self.shown(),
    {
        match self {
            Phase::Running => ProcessPhase::Running,
            Phase::Exited => ProcessPhase::Exited,
        }
    }
}

impl View for PersistentEntry {
    type V = EntryView;

    open spec fn view(&self) -> EntryView {
        EntryView {
            id: self.id@,
            creator: self.creator@,
            capsule_id: self.capsule_id@,
            label: self.label@,
            command: self.command@,
            os_pid: self.os_pid,
            spawned_at: self.spawned_at,
            max_lifetime: self.max_lifetime,
            idle_timeout: self.idle_timeout,
            exit_retention: self.exit_retention,
            phase: self.core.phase,
            exit: self.core.exit,
            exited_at: self.core.exited_at,
            stdout: self.core.stdout@,
            stderr: self.core.stderr@,
            stdin_held: self.core.stdin_held,
            stdin_open: self.core.stdin_open,
            last_touch: self.core.last_touch,
        }
    }
}

/// `info` tells of `entry` what there is to tell at `now`.
pub open spec fn describes(info: ProcessInfo, entry: EntryView, now: u64) -> bool {
    &&& info.id@ == entry.id
    &&& info.label@ == entry.label
    &&& info.command@ == entry.command
    &&& info.os_pid == (if entry.is_live() {
        Some(entry.os_pid)
    } else {
        None
    })
    &&& info.phase == entry.phase.shown()
    &&& info.exit == shown_exit(entry.exit)
    &&& info.age_ms == elapsed(now, entry.spawned_at)
    &&& info.idle_ms == elapsed(now, entry.last_touch)
    &&& info.buffered_bytes == entry.stdout.bytes.len() + entry.stderr.bytes.len()
    &&& info.bytes_dropped == (if entry.stdout.dropped + entry.stderr.dropped <= u64::MAX {
        entry.stdout.dropped + entry.stderr.dropped
    } else {
        u64::MAX as int
    })
    &&& info.stdin_open == entry.stdin_open
    &&& info.cpu_ms is None
    &&& info.mem_bytes_peak is None
}

impl EntryView {
    /// The process has not exited.
    pub open spec fn is_live(self) -> bool {
        self.phase != Phase::Exited
    }

    /// The process belongs to this principal in this capsule.
    pub open spec fn owned_by(self, principal: Seq<char>, capsule_id: Seq<char>) -> bool {
        self.creator == principal && self.capsule_id == capsule_id
    }

    /// Both rings keep to their bounds; an exited process has no input, and its exit is known.
    pub open spec fn valid(self) -> bool {
        &&& self.stdout.valid()
        &&& self.stderr.valid()
        &&& MIN_LOG_RING_BYTES <= self.stdout.cap <= MAX_LOG_RING_BYTES
        &&& MIN_LOG_RING_BYTES <= self.stderr.cap <= MAX_LOG_RING_BYTES
        &&& self.stdin_held ==> self.stdin_open
        &&& self.phase is Exited ==> !self.stdin_open && self.exit is Some && self.exited_at is Some
        &&& self.phase is Running ==> self.exit is None && self.exited_at is None
    }

    /// The ring of a stream.
    pub open spec fn ring(self, which: LogStream) -> RingView {
        match which {
            LogStream::Stdout => self.stdout,
            LogStream::Stderr => self.stderr,
        }
    }

    /// The process after `chunk` came out of one of its streams.
    pub open spec fn fed(self, which: LogStream, chunk: Seq<u8>) -> EntryView {
        match which {
            LogStream::Stdout => EntryView { stdout: self.stdout.pushed(chunk), ..self },
            LogStream::Stderr => EntryView { stderr: self.stderr.pushed(chunk), ..self },
        }
    }

    /// The process after it was touched.
    pub open spec fn touched(self, now: u64) -> EntryView {
        EntryView { last_touch: now, ..self }
    }

    /// The process after both its rings were drained.
    pub open spec fn drained(self) -> EntryView {
        EntryView { stdout: self.stdout.drained(), stderr: self.stderr.drained(), ..self }
    }

    /// The process after it exited.
    pub open spec fn exited(self, record: ExitRecord, now: u64) -> EntryView {
        EntryView {
            phase: Phase::Exited,
            exit: Some(record),
            exited_at: Some(now),
            stdin_held: false,
            stdin_open: false,
            ..self
        }
    }

    /// The time has come to forget the process: it exited long enough ago, or it has run or
    /// been left alone for too long.
    pub open spec fn is_due(self, now: u64) -> bool {
        match self.phase {
            Phase::Exited => match self.exited_at {
                Some(at) => elapsed(now, at) >= self.exit_retention,
                None => true,
            },
            Phase::Running => elapsed(now, self.spawned_at) >= self.max_lifetime || elapsed(
                now,
                self.last_touch,
            ) >= self.idle_timeout,
        }
    }
}

impl PersistentEntry {
    /// Whether the process has not exited.
    pub fn is_live(&self) -> (live: bool)
        ensures
            live == self@.is_live(),
    {
        match self.core.phase {
            Phase::Running => true,
            Phase::Exited => false,
        }
    }

    /// What there is to tell of the process at `now`.
    pub fn info(&self, now: u64) -> (info: ProcessInfo)
        requires
            self@.valid(),
        ensures
            describes(info, self@, now),
    {
        let running: bool = self.is_live();
        ProcessInfo {
            id: self.id.clone(),
            label: self.label.clone(),
            command: self.command.clone(),
            os_pid: if running {
                Some(self.os_pid)
            } else {
                None
            },
            phase: self.core.phase.to_phase(),
            exit: exit_info(self.core.exit),
            age_ms: elapsed_ms(now, self.spawned_at),
            idle_ms: elapsed_ms(now, self.core.last_touch),
            buffered_bytes: self.core.stdout.len() as u64 + self.core.stderr.len() as u64,
            bytes_dropped: self.core.stdout.overflow_dropped().saturating_add(
                self.core.stderr.overflow_dropped(),
            ),
            stdin_open: self.core.stdin_open,
            cpu_ms: None,
            mem_bytes_peak: None,
        }
    }

    /// Whether the time has come to forget the process.
    pub fn is_due(&self, now: u64) -> (due: bool)
        ensures
            due == self@.is_due(now),
    {
        match self.core.phase {
            Phase::Exited => match self.core.exited_at {
                Some(at) => elapsed_ms(now, at) >= self.exit_retention,
                None => true,
            },
            Phase::Running => elapsed_ms(now, self.spawned_at) >= self.max_lifetime || elapsed_ms(
                now,
                self.core.last_touch,
            ) >= self.idle_timeout,
        }
    }
}

/// The record of an exit: what the operating system reported, or the code minus one when the
/// process could not be waited for.
pub fn exit_record(status: Option<(Option<i32>, Option<i32>)>) -> (record: ExitRecord)
    ensures
        record == (match status {
            Some(reported) => (ExitRecord { exit_code: reported.0, signal: reported.1 }),
            None => (ExitRecord { exit_code: Some(-1i32), signal: None }),
        }),
{
    match status {
        Some(reported) => ExitRecord { exit_code: reported.0, signal: reported.1 },
        None => ExitRecord { exit_code: Some(-1), signal: None },
    }
}

} // verus!
