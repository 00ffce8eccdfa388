//! Operations on processes by their ids that are more than a look into the registry.

use vstd::prelude::*;

use crate::process::persistent::registry::PersistentProcessRegistry;
use crate::process::platform::{signal_supported, signal_taken};
use crate::process::tracker::Platform;
use crate::process::types::{ErrorCode, ProcessSignal};

verus! {

/// There are no handles on processes that are known by their ids: everything a handle could do
/// is done by id.
pub fn attach(authority_active: bool) -> (code: ErrorCode)
    ensures
        if authority_active {
            code is Unknown && code->Unknown_0@
                == "attach: resource-handle materialisation pending — use the id-keyed ops"@
        } else {
            code == ErrorCode::CapabilityDenied
        },
{
    if !authority_active {
        return ErrorCode::CapabilityDenied;
    }
    ErrorCode::Unknown(
        "attach: resource-handle materialisation pending — use the id-keyed ops".to_owned(),
    )
}

/// There are no events on the life of a process.
pub fn watch() -> (code: ErrorCode)
    ensures
        code is Unknown,
        code->Unknown_0@
            == "watch: host lifecycle events deferred (publish-authority — RFC host_abi)"@,
{
    ErrorCode::Unknown(
        "watch: host lifecycle events deferred (publish-authority — RFC host_abi)".to_owned(),
    )
}

/// The process to which a signal of the caller goes. A signal that the platform does not take is
/// refused before the process is looked up.
pub fn signal(
    registry: &mut PersistentProcessRegistry,
    platform: Platform,
    sig: ProcessSignal,
    id: &str,
    principal: &str,
    capsule_id: &str,
    now: u64,
) -> (r: Result<Option<u32>, ErrorCode>)
    requires
        old(registry)@.valid(),
    ensures
        final(registry)@.valid(),
        match r {
            Ok(target) => {
                let before = old(registry)@.process(id@);
                &&& signal_taken(platform, sig)
                &&& old(registry)@.grants(id@, principal@, capsule_id@)
                &&& target == (if before.is_live() {
                    Some(before.os_pid)
                } else {
                    None
                })
                &&& final(registry)@ == old(registry)@.touched(id@, now)
            },
            Err(code) => {
                &&& final(registry)@ == old(registry)@
                &&& code == (if !signal_taken(platform, sig) {
                    ErrorCode::CapabilityDenied
                } else {
                    ErrorCode::NoSuchProcess
                })
                &&& signal_taken(platform, sig) ==> !old(registry)@.grants(
                    id@,
                    principal@,
                    capsule_id@,
                )
            },
        },
{
    if !signal_supported(platform, sig) {
        return Err(ErrorCode::CapabilityDenied);
    }
    registry.signal(id, principal, capsule_id, now)
}

/// How an operation that can be cancelled ended.
pub fn or_cancelled<T>(outcome: Option<Result<T, ErrorCode>>) -> (r: Result<T, ErrorCode>)
    ensures
        r == (match outcome {
            Some(result) => result,
            None => Err(ErrorCode::Cancelled),
        }),
{
    match outcome {
        Some(result) => result,
        None => Err(ErrorCode::Cancelled),
    }
}

} // verus!
