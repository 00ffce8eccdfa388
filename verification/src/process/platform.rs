//! What the operating systems can do to processes.

use vstd::prelude::*;

use crate::process::tracker::Platform;
use crate::process::types::{ErrorCode, ProcessSignal};
use crate::text::{concat2, concat3};

verus! {

/// How a tree of processes is ended.
#[derive(Debug, Clone, Copy, PartialEq, Eq, Structural)]
pub enum Termination {
    Graceful,
    Force,
}

/// How a signal reaches its process.
pub enum SignalPlan {
    /// Signal the group of this process, and the process itself if there is no such group.
    Group(i32),
    /// Signal this process alone.
    Root(i32),
    /// End the whole tree.
    Terminate(Termination),
    Refused(ErrorCode),
}

/// The largest process id that can be signalled.
pub open spec fn signalable(pid: u32) -> bool {
    pid <= i32::MAX
}

/// A process id as the operating system takes it for signals.
pub fn raw_pid(pid: u32) -> (r: Result<i32, ErrorCode>)
    ensures
        match r {
            Ok(raw) => raw == pid && signalable(pid),
            Err(code) => code == ErrorCode::InvalidInput && !signalable(pid),
        },
{
    if pid <= 0x7fff_ffff {
        Ok(pid as i32)
    } else {
        Err(ErrorCode::InvalidInput)
    }
}

/// Windows can only end a process, so it takes no other signal.
pub open spec fn signal_taken(platform: Platform, signal: ProcessSignal) -> bool {
    platform == Platform::Windows ==> signal == ProcessSignal::Term
}

/// Whether a platform takes a signal.
pub fn signal_supported(platform: Platform, signal: ProcessSignal) -> (r: bool)
    ensures
        r == signal_taken(platform, signal),
{
    match platform {
        Platform::Windows => match signal {
            ProcessSignal::Term => true,
            _ => false,
        },
        _ => true,
    }
}

/// The name of a signal.
pub open spec fn signal_name(signal: ProcessSignal) -> Seq<char> {
    match signal {
        ProcessSignal::Term => "SIGTERM"@,
        ProcessSignal::Hup => "SIGHUP"@,
        ProcessSignal::Usr1 => "SIGUSR1"@,
        ProcessSignal::Usr2 => "SIGUSR2"@,
        ProcessSignal::Int => "SIGINT"@,
        ProcessSignal::Stop => "SIGSTOP"@,
        ProcessSignal::Cont => "SIGCONT"@,
    }
}

/// The name of a signal.
pub fn name_of_signal(signal: ProcessSignal) -> (name: &'static str)
    ensures
        name@ == signal_name(signal),
{
    match signal {
        ProcessSignal::Term => "SIGTERM",
        ProcessSignal::Hup => "SIGHUP",
        ProcessSignal::Usr1 => "SIGUSR1",
        ProcessSignal::Usr2 => "SIGUSR2",
        ProcessSignal::Int => "SIGINT",
        ProcessSignal::Stop => "SIGSTOP",
        ProcessSignal::Cont => "SIGCONT",
    }
}

/// How a signal reaches a whole tree of processes.
pub fn signal_process_tree(platform: Platform, pid: u32, signal: ProcessSignal) -> (plan:
    SignalPlan)
    ensures
        match platform {
            Platform::Unix => if signalable(pid) {
                plan is Group && plan->Group_0 == pid
            } else {
                plan == SignalPlan::Refused(ErrorCode::InvalidInput)
            },
            Platform::Windows => if signal == ProcessSignal::Term {
                plan == SignalPlan::Terminate(Termination::Graceful)
            } else {
                plan == SignalPlan::Refused(ErrorCode::CapabilityDenied)
            },
            Platform::Other => plan == SignalPlan::Refused(ErrorCode::CapabilityDenied),
        },
{
    match platform {
        Platform::Unix => match raw_pid(pid) {
            Ok(raw) => SignalPlan::Group(raw),
            Err(code) => SignalPlan::Refused(code),
        },
        Platform::Windows => match signal {
            ProcessSignal::Term => SignalPlan::Terminate(Termination::Graceful),
            _ => SignalPlan::Refused(ErrorCode::CapabilityDenied),
        },
        Platform::Other => SignalPlan::Refused(ErrorCode::CapabilityDenied),
    }
}

/// How a signal reaches the root of a tree. Windows has no way to signal one process, so there
/// it is as for the whole tree.
pub fn signal_root_process(platform: Platform, pid: u32, signal: ProcessSignal) -> (plan:
    SignalPlan)
    ensures
        match platform {
            Platform::Unix => if signalable(pid) {
                plan is Root && plan->Root_0 == pid
            } else {
                plan == SignalPlan::Refused(ErrorCode::InvalidInput)
            },
            Platform::Windows => if signal == ProcessSignal::Term {
                plan == SignalPlan::Terminate(Termination::Graceful)
            } else {
                plan == SignalPlan::Refused(ErrorCode::CapabilityDenied)
            },
            Platform::Other => plan == SignalPlan::Refused(ErrorCode::CapabilityDenied),
        },
{
    match platform {
        Platform::Unix => match raw_pid(pid) {
            Ok(raw) => SignalPlan::Root(raw),
            Err(code) => SignalPlan::Refused(code),
        },
        _ => signal_process_tree(platform, pid, signal),
    }
}

/// Why signalling one process failed, in the words of the operating system.
pub struct SignalError {
    pub text: String,
    /// There is no such process.
    pub gone: bool,
}

/// What becomes of a signal to a group. Where there was no such group, it is up to the process.
pub fn group_signal_result(
    group_reached: bool,
    root: &Result<(), SignalError>,
    signal: ProcessSignal,
) -> (r: Result<(), ErrorCode>)
    ensures
        match *root {
            Err(error) if !group_reached => r matches Err(ErrorCode::Unknown(text)) && text@
                == "signal "@ + signal_name(signal) + ": "@ + error.text@,
            _ => r is Ok,
        },
{
    if group_reached {
        return Ok(());
    }
    match root {
        Ok(()) => Ok(()),
        Err(error) => {
            let head = concat3("signal ", name_of_signal(signal), ": ");
            Err(ErrorCode::Unknown(concat2(head.as_str(), error.text.as_str())))
        },
    }
}

/// What becomes of a signal to one process.
pub fn root_signal_result(root: &Result<(), SignalError>, signal: ProcessSignal) -> (r: Result<
    (),
    ErrorCode,
>)
    ensures
        match *root {
            Err(error) => r matches Err(ErrorCode::Unknown(text)) && text@ == "kill("@
                + signal_name(signal) + "): "@ + error.text@,
            Ok(()) => r is Ok,
        },
{
    match root {
        Ok(()) => Ok(()),
        Err(error) => {
            let head = concat3("kill(", name_of_signal(signal), "): ");
            Err(ErrorCode::Unknown(concat2(head.as_str(), error.text.as_str())))
        },
    }
}

/// The signal that ends a tree on Unix.
pub open spec fn ending_signal(termination: Termination) -> Seq<char> {
    match termination {
        Termination::Graceful => "SIGTERM"@,
        Termination::Force => "SIGKILL"@,
    }
}

/// What becomes of ending a tree on Unix. A process that is already gone has been ended.
pub fn terminate_result(
    group_reached: bool,
    root: &Result<(), SignalError>,
    termination: Termination,
) -> (r: Result<(), ErrorCode>)
    ensures
        match *root {
            Err(error) if !group_reached && !error.gone => r matches Err(ErrorCode::Unknown(text))
                && text@ == "signal "@ + ending_signal(termination) + ": "@ + error.text@,
            _ => r is Ok,
        },
{
    if group_reached {
        return Ok(());
    }
    match root {
        Ok(()) => Ok(()),
        Err(error) => {
            if error.gone {
                return Ok(());
            }
            let name = match termination {
                Termination::Graceful => "SIGTERM",
                Termination::Force => "SIGKILL",
            };
            let head = concat3("signal ", name, ": ");
            Err(ErrorCode::Unknown(concat2(head.as_str(), error.text.as_str())))
        },
    }
}

/// The id of a started child, unless it has none that can be used.
pub fn usable_pid(id: Option<u32>) -> (r: Result<u32, String>)
    ensures
        match r {
            Ok(pid) => id == Some(pid) && pid != 0,
            Err(text) => (id is None || id == Some(0u32)) && text@
                == "spawned child has no usable pid"@,
        },
{
    match id {
        Some(pid) if pid != 0 => Ok(pid),
        _ => Err("spawned child has no usable pid".to_owned()),
    }
}

} // verus!
