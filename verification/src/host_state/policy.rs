//! What a principal may reach and start.
//!
//! A principal in the restricted group may reach and start only what its profile names. Everyone
//! else may reach and start whatever the rest of the host allows.

use vstd::prelude::*;

use crate::cancel::may_answer;
use crate::host_state::state::HostState;
use crate::host_state::types::PrincipalProfile;
use crate::numbers::{parse_number, parsed};
use crate::paths::{base_name, file_name};
use crate::text::{
    ascii_lowered, contains_char, eq_ignore_ascii_case, rsplit_once, split_last, str_eq,
};

verus! {

/// The pattern, a host and a port or `*`, covers the endpoint. Without a port the question is
/// only about the host.
pub open spec fn covers(pattern: Seq<char>, host: Seq<char>, port: Option<u16>) -> bool {
    match split_last(pattern, ':') {
        None => false,
        Some((pattern_host, pattern_port)) => ascii_lowered(pattern_host) == ascii_lowered(host) && (
        pattern_port == "*"@ || match port {
            Some(number) => parsed(pattern_port, 10, u16::MAX as int) == Some(number as int),
            None => parsed(pattern_port, 10, u16::MAX as int) is Some,
        }),
    }
}

/// The entry names the program: by its whole path, or by its file name if the entry is no path.
pub open spec fn names_program(entry: Seq<char>, command: Seq<char>) -> bool {
    entry == command || (!entry.contains('/') && base_name(command) == Some(entry))
}

impl PrincipalProfile {
    /// The profile lets its principal reach the endpoint.
    pub open spec fn may_reach(self, host: Seq<char>, port: Option<u16>) -> bool {
        !self.restricted() || exists|i: int|
            0 <= i < self.egress@.len() && covers((#[trigger] self.egress@[i])@, host, port)
    }

    /// The profile lets its principal start the program.
    pub open spec fn may_start(self, command: Seq<char>) -> bool {
        !self.restricted() || exists|i: int|
            0 <= i < self.process_allow@.len() && names_program(
                (#[trigger] self.process_allow@[i])@,
                command,
            )
    }

    /// Whether the profile lets its principal reach the endpoint.
    pub fn egress_allows(&self, host: &str, port: Option<u16>) -> (r: bool)
        ensures
            r == self.may_reach(host@, port),
    {
        if !self.is_restricted() {
            return true;
        }
        let mut i: usize = 0;
        while i < self.egress.len()
            invariant
                i <= self.egress@.len(),
                forall|k: int| 0 <= k < i ==> !covers((#[trigger] self.egress@[k])@, host@, port),
            decreases self.egress.len() - i,
        {
            if pattern_covers(self.egress[i].as_str(), host, port) {
                return true;
            }
            i += 1;
        }
        false
    }

    /// Whether the profile lets its principal start the program.
    pub fn process_allows(&self, command: &str) -> (r: bool)
        ensures
            r == self.may_start(command@),
    {
        if !self.is_restricted() {
            return true;
        }
        let mut i: usize = 0;
        while i < self.process_allow.len()
            invariant
                i <= self.process_allow@.len(),
                forall|k: int|
                    0 <= k < i ==> !names_program((#[trigger] self.process_allow@[k])@, command@),
            decreases self.process_allow.len() - i,
        {
            let entry = self.process_allow[i].as_str();
            if str_eq(entry, command) {
                return true;
            }
            if !contains_char(entry, '/') {
                match file_name(command) {
                    Some(name) => {
                        if str_eq(name.as_str(), entry) {
                            return true;
                        }
                    },
                    None => {},
                }
            }
            i += 1;
        }
        false
    }
}

/// Whether the pattern covers the endpoint.
fn pattern_covers(pattern: &str, host: &str, port: Option<u16>) -> (r: bool)
    ensures
        r == covers(pattern@, host@, port),
{
    match rsplit_once(pattern, ':') {
        None => false,
        Some((pattern_host, pattern_port)) => {
            if !eq_ignore_ascii_case(pattern_host.as_str(), host) {
                return false;
            }
            if str_eq(pattern_port.as_str(), "*") {
                return true;
            }
            match (parse_number(pattern_port.as_str(), 10, 65535), port) {
                (Some(value), Some(number)) => value == number as u64,
                (Some(_), None) => true,
                (None, _) => false,
            }
        },
    }
}

impl HostState {
    /// Whether the caller may reach the endpoint, given whether the token in effect is cancelled.
    pub fn egress_allows_given(&self, host: &str, port: Option<u16>, cancelled: bool) -> (r: bool)
        ensures
            r == (self.invocation.profile_authorized && !cancelled && self.profile().may_reach(
                host@,
                port,
            )),
    {
        self.authority_given(cancelled) && self.effective_profile().egress_allows(host, port)
    }

    /// Whether the caller may reach the endpoint at this moment: it has a profile, which lets it,
    /// and the token in effect, which may be cancelled at any time, says that it is not.
    pub fn principal_egress_allows(&self, host: &str, port: Option<u16>) -> (r: bool)
        ensures
            exists|cancelled: bool| #[trigger]
                may_answer(self.token(), cancelled) && r == (self.invocation.profile_authorized
                    && !cancelled && self.profile().may_reach(host@, port)),
    {
        let cancelled: bool = self.effective_cancel_token().is_cancelled();
        assert(may_answer(self.token(), cancelled));
        self.egress_allows_given(host, port, cancelled)
    }

    /// Whether the caller may start the program, given whether the token in effect is cancelled.
    pub fn process_allows_given(&self, command: &str, cancelled: bool) -> (r: bool)
        ensures
            r == (self.invocation.profile_authorized && !cancelled && self.profile().may_start(
                command@,
            )),
    {
        self.authority_given(cancelled) && self.effective_profile().process_allows(command)
    }

    /// Whether the caller may start the program at this moment: it has a profile, which lets it,
    /// and the token in effect, which may be cancelled at any time, says that it is not.
    pub fn principal_process_allows(&self, command: &str) -> (r: bool)
        ensures
            exists|cancelled: bool| #[trigger]
                may_answer(self.token(), cancelled) && r == (self.invocation.profile_authorized
                    && !cancelled && self.profile().may_start(command@)),
    {
        let cancelled: bool = self.effective_cancel_token().is_cancelled();
        assert(may_answer(self.token(), cancelled));
        self.process_allows_given(command, cancelled)
    }
}

/// A restricted principal whose profile names nothing reaches nothing and starts nothing; the
/// floor profile names no more than the defaults do.
pub proof fn law_restricted_fails_closed(
    profile: PrincipalProfile,
    host: Seq<char>,
    port: Option<u16>,
    command: Seq<char>,
)
    requires
        profile.restricted(),
    ensures
        profile.egress@.len() == 0 ==> !profile.may_reach(host, port),
        profile.process_allow@.len() == 0 ==> !profile.may_start(command),
{
}

/// Who may reach a port of a host may look the host up.
pub proof fn law_reaching_implies_resolving(profile: PrincipalProfile, host: Seq<char>, port: u16)
    requires
        profile.may_reach(host, Some(port)),
    ensures
        profile.may_reach(host, None),
{
    if profile.restricted() {
        let i = choose|i: int|
            0 <= i < profile.egress@.len() && covers(
                (#[trigger] profile.egress@[i])@,
                host,
                Some(port),
            );
        assert(covers(profile.egress@[i]@, host, None));
    }
}

} // verus!
