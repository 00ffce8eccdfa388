//! Children that run beside the capsule, and what is read from them.

use vstd::prelude::*;

use crate::names::{keyed_at, pairs_as_map};
use crate::order::{pairs_ordered, put_ordered};
use crate::process::counts::ProcessCounts;
use crate::process::tracker::{Platform, ProcessTracker};
use crate::process::types::{ErrorCode, ExitInfo, KillResult, ReadLogsResult};
use crate::text::{concat2, contains_char, lossy, lossy_text, str_eq};

verus! {

/// How many bytes of each stream are held for a child.
pub const MAX_BUFFER_BYTES: usize = 1048576;

/// The last bytes of a stream, as many as are held.
pub open spec fn held(stream: Seq<u8>) -> Seq<u8> {
    if stream.len() <= MAX_BUFFER_BYTES {
        stream
    } else {
        stream.skip(stream.len() - MAX_BUFFER_BYTES)
    }
}

/// What was read from a stream and not handed on.
pub struct OutputBuffer {
    bytes: Vec<u8>,
}

impl View for OutputBuffer {
    type V = Seq<u8>;

    closed spec fn view(&self) -> Seq<u8> {
        self.bytes@
    }
}

impl OutputBuffer {
    #[verifier::type_invariant]
    spec fn bounded(&self) -> bool {
        self.bytes@.len() <= MAX_BUFFER_BYTES
    }

    /// Nothing was read.
    pub fn new() -> (buffer: Self)
        ensures
            buffer@ == Seq::<u8>::empty(),
    {
        OutputBuffer { bytes: Vec::new() }
    }

    /// Takes in what was read. What does not fit pushes the oldest bytes out.
    pub fn push(&mut self, chunk: &[u8])
        requires
            chunk@.len() <= usize::MAX - MAX_BUFFER_BYTES,
        ensures
            final(self)@ == held(old(self)@ + chunk@),
            final(self)@.len() <= MAX_BUFFER_BYTES,
    {
        proof {
            use_type_invariant(&*self);
        }
        let mut bytes: Vec<u8> = Vec::new();
        std::mem::swap(&mut bytes, &mut self.bytes);
        let ghost before = bytes@;
        bytes.extend_from_slice(chunk);
        assert(bytes@ =~= before + chunk@);
        if bytes.len() > MAX_BUFFER_BYTES {
            let excess: usize = bytes.len() - MAX_BUFFER_BYTES;
            let kept = bytes.split_off(excess);
            assert(kept@ =~= held(before + chunk@));
            self.bytes = kept;
        } else {
            self.bytes = bytes;
        }
    }

    /// Hands on everything that is held, as text.
    pub fn drain(&mut self) -> (text: String)
        ensures
            text@ == lossy_text(old(self)@),
            final(self)@ == Seq::<u8>::empty(),
    {
        let mut bytes: Vec<u8> = Vec::new();
        std::mem::swap(&mut bytes, &mut self.bytes);
        lossy(bytes.as_slice())
    }
}

/// However a stream arrives in chunks, its last bytes are held.
pub proof fn law_chunks_do_not_matter(first: Seq<u8>, second: Seq<u8>)
    ensures
        held(held(first) + second) == held(first + second),
{
    assert(held(held(first) + second) =~= held(first + second));
}

/// A child that runs beside the capsule.
pub struct ManagedProcess {
    /// Whether the child is still held.
    pub child: bool,
    pub pid: u32,
    pub stdout: OutputBuffer,
    pub stderr: OutputBuffer,
    /// The program, without its arguments: those may hold secrets.
    pub audit_descriptor: String,
    pub creator: String,
}

/// What looking after a child without waiting shows.
#[derive(Debug, Clone, Copy, PartialEq, Eq, Structural)]
pub enum ChildPoll {
    Running,
    Exited(Option<i32>),
    /// Looking failed.
    Failed,
}

/// What became of waiting for a child.
pub enum WaitAnswer {
    Exited(Option<i32>),
    /// It failed, in the words of the operating system.
    Failed(String),
    TimedOut,
    Cancelled,
}

/// What became of killing a child.
pub struct KillAnswer {
    /// The child had exited before, with this code.
    pub exited_before: Option<Option<i32>>,
    /// Whether its tree was ended.
    pub terminated: Result<(), ErrorCode>,
    /// The code of the child right after it was killed, if it is known yet.
    pub code_after: Option<i32>,
}

/// Whether a kill counts as one, and the code of the child.
pub open spec fn kill_report(platform: Platform, answer: KillAnswer) -> Result<
    (bool, Option<i32>),
    ErrorCode,
> {
    match platform {
        Platform::Unix => Ok((true, answer.code_after)),
        Platform::Windows => match answer.terminated {
            Err(code) => Err(code),
            Ok(()) => match answer.exited_before {
                Some(code) => Ok((false, code)),
                None => Ok((true, answer.code_after)),
            },
        },
        Platform::Other => match answer.terminated {
            Err(code) => Err(code),
            Ok(()) => Ok((true, answer.code_after)),
        },
    }
}

/// Whether a kill counts as one, and the code of the child. On Unix killing is best effort and
/// counts whenever there was a child to kill. On Windows it counts only where the tree was ended
/// and the child had not exited before.
pub fn kill_and_reap(platform: Platform, answer: &KillAnswer) -> (r: Result<
    (bool, Option<i32>),
    ErrorCode,
>)
    ensures
        r == kill_report(platform, *answer),
{
    match platform {
        Platform::Unix => Ok((true, answer.code_after)),
        Platform::Windows => match &answer.terminated {
            Err(code) => Err(code.copy()),
            Ok(()) => match answer.exited_before {
                Some(code) => Ok((false, code)),
                None => Ok((true, answer.code_after)),
            },
        },
        Platform::Other => match &answer.terminated {
            Err(code) => Err(code.copy()),
            Ok(()) => Ok((true, answer.code_after)),
        },
    }
}

impl ManagedProcess {
    /// Hands on the output of the child and tells whether it still runs. A child that has exited
    /// is let go of. Where looking failed, the child counts as exited with the code -1.
    pub fn read_logs(&mut self, poll: ChildPoll) -> (r: ReadLogsResult)
        ensures
            r.stdout@ == lossy_text(old(self).stdout@),
            r.stderr@ == lossy_text(old(self).stderr@),
            r.running == (old(self).child && poll == ChildPoll::Running),
            r.exit == (if r.running {
                None
            } else {
                Some(
                    ExitInfo {
                        exit_code: if !old(self).child {
                            None
                        } else {
                            match poll {
                                ChildPoll::Exited(code) => code,
                                _ => Some(-1i32),
                            }
                        },
                        signal: None,
                    },
                )
            }),
            final(self).stdout@ == Seq::<u8>::empty(),
            final(self).stderr@ == Seq::<u8>::empty(),
            *final(self) == (ManagedProcess {
                child: r.running,
                stdout: final(self).stdout,
                stderr: final(self).stderr,
                ..*old(self)
            }),
    {
        let (running, exit_code): (bool, Option<i32>) = if self.child {
            match poll {
                ChildPoll::Running => (true, None),
                ChildPoll::Exited(code) => (false, code),
                ChildPoll::Failed => (false, Some(-1)),
            }
        } else {
            (false, None)
        };
        self.child = running;
        let stdout = self.stdout.drain();
        let stderr = self.stderr.drain();
        ReadLogsResult {
            stdout,
            stderr,
            running,
            exit: if running {
                None
            } else {
                Some(ExitInfo { exit_code, signal: None })
            },
        }
    }

    /// Lets go of the child once it was killed, and hands on its output. Where the kill failed,
    /// the output stays.
    pub fn kill(&mut self, platform: Platform, answer: &KillAnswer) -> (r: Result<
        KillResult,
        ErrorCode,
    >)
        ensures
            match r {
                Err(code) => {
                    &&& old(self).child
                    &&& kill_report(platform, *answer) == Err::<(bool, Option<i32>), ErrorCode>(
                        code,
                    )
                    &&& *final(self) == (ManagedProcess { child: false, ..*old(self) })
                },
                Ok(result) => {
                    &&& old(self).child ==> kill_report(platform, *answer) == Ok::<
                        (bool, Option<i32>),
                        ErrorCode,
                    >((result.killed, result.exit->Some_0.exit_code))
                    &&& !old(self).child ==> !result.killed && result.exit == Some(
                        ExitInfo { exit_code: None, signal: None },
                    )
                    &&& result.exit is Some
                    &&& result.exit->Some_0.signal is None
                    &&& result.stdout@ == lossy_text(old(self).stdout@)
                    &&& result.stderr@ == lossy_text(old(self).stderr@)
                    &&& final(self).stdout@ == Seq::<u8>::empty()
                    &&& final(self).stderr@ == Seq::<u8>::empty()
                    &&& *final(self) == (ManagedProcess {
                        child: false,
                        stdout: final(self).stdout,
                        stderr: final(self).stderr,
                        ..*old(self)
                    })
                },
            },
    {
        let held = self.child;
        self.child = false;
        let (killed, exit_code): (bool, Option<i32>) = if held {
            match kill_and_reap(platform, answer) {
                Ok(report) => report,
                Err(code) => {
                    return Err(code);
                },
            }
        } else {
            (false, None)
        };
        let stdout = self.stdout.drain();
        let stderr = self.stderr.drain();
        Ok(
            KillResult {
                killed,
                exit: Some(ExitInfo { exit_code, signal: None }),
                stdout,
                stderr,
            },
        )
    }

    /// How waiting for the child ended. Only a child that has exited is let go of: after a
    /// timeout or a cancellation it can still be waited for, read and killed.
    pub fn wait(&mut self, answer: &WaitAnswer) -> (r: Result<ExitInfo, ErrorCode>)
        ensures
            if !old(self).child {
                r == Err::<ExitInfo, ErrorCode>(ErrorCode::Closed) && *final(self) == *old(self)
            } else {
                match *answer {
                    WaitAnswer::Exited(code) => r == Ok::<ExitInfo, ErrorCode>(
                        ExitInfo { exit_code: code, signal: None },
                    ) && *final(self) == (ManagedProcess { child: false, ..*old(self) }),
                    WaitAnswer::Failed(text) => {
                        &&& *final(self) == *old(self)
                        &&& r is Err
                        &&& r->Err_0 is Unknown
                        &&& r->Err_0->Unknown_0@ == "wait: "@ + text@
                    },
                    WaitAnswer::TimedOut => r == Err::<ExitInfo, ErrorCode>(ErrorCode::WaitTimeout)
                        && *final(self) == *old(self),
                    WaitAnswer::Cancelled => r == Err::<ExitInfo, ErrorCode>(ErrorCode::Cancelled)
                        && *final(self) == *old(self),
                }
            },
    {
        if !self.child {
            return Err(ErrorCode::Closed);
        }
        match answer {
            WaitAnswer::Exited(code) => {
                self.child = false;
                Ok(ExitInfo { exit_code: *code, signal: None })
            },
            WaitAnswer::Failed(text) => Err(ErrorCode::Unknown(concat2("wait: ", text.as_str()))),
            WaitAnswer::TimedOut => Err(ErrorCode::WaitTimeout),
            WaitAnswer::Cancelled => Err(ErrorCode::Cancelled),
        }
    }

    /// The process id of the child, while it is held and has one.
    pub fn os_pid(&self, id: Option<u32>) -> (r: Result<u32, ErrorCode>)
        ensures
            match r {
                Ok(pid) => self.child && id == Some(pid),
                Err(code) => code == ErrorCode::Closed && (!self.child || id is None),
            },
    {
        if !self.child {
            return Err(ErrorCode::Closed);
        }
        match id {
            Some(pid) => Ok(pid),
            None => Err(ErrorCode::Closed),
        }
    }

    /// Gives up the child: it is no longer tracked if it has a process id, and no longer counted
    /// against its creator.
    pub fn give_up(self, id: Option<u32>, counts: &mut ProcessCounts, tracker: &mut ProcessTracker)
        ensures
            final(counts)@ == old(counts)@.minus(self.creator@),
            final(tracker)@ == (match id {
                Some(pid) if self.child => old(tracker)@.remove(pid),
                _ => old(tracker)@,
            }),
    {
        if self.child {
            match id {
                Some(pid) => {
                    tracker.unregister(pid);
                },
                None => {},
            }
        }
        counts.release(self.creator.as_str());
    }
}

/// Why there is no command.
pub enum PrepareCommandError {
    Invalid,
    /// The sandbox that the policy requires is not to be had.
    SandboxDenied(String),
}

/// What the first `n` pairs come to: of two with one name the later counts.
pub open spec fn laid(pairs: Seq<(String, String)>, n: int) -> Map<Seq<char>, String>
    decreases n,
{
    if n <= 0 {
        Map::empty()
    } else {
        laid(pairs, n - 1).insert(pairs[n - 1].0@, pairs[n - 1].1)
    }
}

/// One of the first `n` names is in the environment, or stands twice.
pub open spec fn collides(
    env: Seq<(String, String)>,
    injected: Seq<(String, String)>,
    n: int,
) -> bool {
    exists|i: int|
        0 <= i < n && (laid(env, env.len() as int).contains_key((#[trigger] injected[i]).0@)
            || exists|j: int| 0 <= j < i && (#[trigger] injected[j]).0@ == injected[i].0@)
}

/// The environment with the first `n` pairs put on top.
pub open spec fn merged(
    env: Seq<(String, String)>,
    injected: Seq<(String, String)>,
    n: int,
) -> Map<Seq<char>, String>
    decreases n,
{
    if n <= 0 {
        laid(env, env.len() as int)
    } else {
        merged(env, injected, n - 1).insert(injected[n - 1].0@, injected[n - 1].1)
    }
}

/// What is in the merged environment.
proof fn lemma_merged_keys(
    env: Seq<(String, String)>,
    injected: Seq<(String, String)>,
    n: int,
    key: Seq<char>,
)
    requires
        0 <= n <= injected.len(),
    ensures
        merged(env, injected, n).contains_key(key) == (laid(env, env.len() as int).contains_key(
            key,
        ) || exists|j: int| 0 <= j < n && (#[trigger] injected[j]).0@ == key),
    decreases n,
{
    if n > 0 {
        lemma_merged_keys(env, injected, n - 1, key);
        if injected[n - 1].0@ == key {
            assert(injected[n - 1].0@ == key);
        }
        if exists|j: int| 0 <= j < n && (#[trigger] injected[j]).0@ == key {
            let j = choose|j: int| 0 <= j < n && (#[trigger] injected[j]).0@ == key;
            if j < n - 1 {
                assert(injected[j].0@ == key);
            }
        }
    }
}

/// The environment of a child: its own with the variables that point at its files. A variable
/// that is already there makes the command invalid.
pub fn merge_env(env: &Vec<(String, String)>, injected: &Vec<(String, String)>) -> (r: Result<
    Vec<(String, String)>,
    PrepareCommandError,
>)
    ensures
        match r {
            Ok(all) => {
                &&& !collides(env@, injected@, injected@.len() as int)
                &&& pairs_ordered(all@)
                &&& pairs_as_map(all@) == merged(env@, injected@, injected@.len() as int)
            },
            Err(error) => error is Invalid && collides(env@, injected@, injected@.len() as int),
        },
{
    let mut all: Vec<(String, String)> = Vec::new();
    assert(pairs_as_map(all@) =~= Map::<Seq<char>, String>::empty());
    let mut k: usize = 0;
    while k < env.len()
        invariant
            k <= env@.len(),
            pairs_ordered(all@),
            pairs_as_map(all@) == laid(env@, k as int),
        decreases env.len() - k,
    {
        put_ordered(&mut all, env[k].0.clone(), env[k].1.clone());
        k += 1;
    }
    let mut i: usize = 0;
    while i < injected.len()
        invariant
            i <= injected@.len(),
            pairs_ordered(all@),
            pairs_as_map(all@) == merged(env@, injected@, i as int),
            !collides(env@, injected@, i as int),
        decreases injected.len() - i,
    {
        proof {
            lemma_merged_keys(env@, injected@, i as int, injected@[i as int].0@);
            assert(collides(env@, injected@, i + 1) == (collides(env@, injected@, i as int)
                || merged(env@, injected@, i as int).contains_key(injected@[i as int].0@))) by {
                if collides(env@, injected@, i + 1) && !collides(env@, injected@, i as int) {
                    let w = choose|w: int|
                        0 <= w < i + 1 && (laid(env@, env@.len() as int).contains_key(
                            (#[trigger] injected@[w]).0@,
                        ) || exists|j: int|
                            0 <= j < w && (#[trigger] injected@[j]).0@ == injected@[w].0@);
                    if w < i {
                        assert(collides(env@, injected@, i as int));
                    }
                }
            }
        }
        if has_key(&all, injected[i].0.as_str()) {
            proof {
                let w = choose|w: int|
                    0 <= w < i + 1 && (laid(env@, env@.len() as int).contains_key(
                        (#[trigger] injected@[w]).0@,
                    ) || exists|j: int|
                        0 <= j < w && (#[trigger] injected@[j]).0@ == injected@[w].0@);
                assert(collides(env@, injected@, injected@.len() as int));
            }
            return Err(PrepareCommandError::Invalid);
        }
        put_ordered(&mut all, injected[i].0.clone(), injected[i].1.clone());
        i += 1;
    }
    Ok(all)
}

/// Whether there is a pair with this key.
fn has_key(pairs: &Vec<(String, String)>, key: &str) -> (found: bool)
    ensures
        found == pairs_as_map(pairs@).contains_key(key@),
{
    let mut i: usize = 0;
    while i < pairs.len()
        invariant
            i <= pairs@.len(),
            forall|j: int| 0 <= j < i ==> !keyed_at(pairs@, key@, j),
        decreases pairs.len() - i,
    {
        if str_eq(pairs[i].0.as_str(), key) {
            assert(keyed_at(pairs@, key@, i as int));
            return true;
        }
        i += 1;
    }
    false
}

/// A command before the sandbox is put around it.
pub struct CommandPlan {
    pub program: String,
    pub env: Vec<(String, String)>,
}

/// The command that the sandbox is put around. `program` is what came of looking for the program;
/// without one, or with a variable that would be set twice, the command is invalid.
pub fn prepare_sandboxed_command(
    program: Result<String, String>,
    env: &Vec<(String, String)>,
    injected: &Vec<(String, String)>,
) -> (r: Result<CommandPlan, PrepareCommandError>)
    ensures
        match r {
            Ok(plan) => {
                &&& program == Ok::<String, String>(plan.program)
                &&& !collides(env@, injected@, injected@.len() as int)
                &&& pairs_ordered(plan.env@)
                &&& pairs_as_map(plan.env@) == merged(env@, injected@, injected@.len() as int)
            },
            Err(error) => error is Invalid && (program is Err || collides(
                env@,
                injected@,
                injected@.len() as int,
            )),
        },
{
    match program {
        Err(_) => Err(PrepareCommandError::Invalid),
        Ok(program) => match merge_env(env, injected) {
            Err(error) => Err(error),
            Ok(env) => Ok(CommandPlan { program, env }),
        },
    }
}

/// What becomes of a command that the sandbox did not take.
pub fn sandbox_error(text: &str, permission_denied: bool) -> (r: PrepareCommandError)
    ensures
        if permission_denied {
            r is SandboxDenied && r->SandboxDenied_0@ == "failed to wrap command in sandbox: "@
                + text@
        } else {
            r is Invalid
        },
{
    if permission_denied {
        PrepareCommandError::SandboxDenied(concat2("failed to wrap command in sandbox: ", text))
    } else {
        PrepareCommandError::Invalid
    }
}

/// The program to run. A name that no program can have is refused.
pub fn resolve_program(command: &str) -> (r: Result<String, String>)
    ensures
        match r {
            Ok(program) => program@ == command@ && !command@.contains('\0'),
            Err(text) => command@.contains('\0') && text@ == "process command contains a null byte"@,
        },
{
    if contains_char(command, '\0') {
        return Err("process command contains a null byte".to_owned());
    }
    Ok(command.to_owned())
}

} // verus!
