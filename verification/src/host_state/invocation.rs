//! What is installed for whom: when a message is received, and before an autonomous run begins.

use vstd::prelude::*;

use crate::host_state::authority::{released_over, ReleaseReading, TableCounts};
use crate::host_state::state::{directory_stamp, token_installed, HostState, Invocation};
use crate::host_state::types::{
    copy_mount, CapsuleLog, EnvOverlay, IpcMessage, PrincipalId, PrincipalMount, PrincipalProfile,
    RuntimeId, RuntimeScope, ScopedKvStore, SecretStore,
};
use crate::text::{concat3, opt_eq, owned_view, str_eq};

verus! {

/// What a received message does to the context.
#[derive(Debug, Clone, Copy, PartialEq, Eq, Structural)]
pub enum RecvStep {
    /// Nothing: the caller was set by a dispatch.
    Ignore,
    /// The message comes from someone else than the owner, whom the instance serves alone: the
    /// context is taken down to the restricted floor.
    PeerFloor,
    /// The message comes from whom the context is already set up for.
    Refresh,
    /// The context is set up anew.
    Switch,
}

/// What came of looking for a profile.
pub enum ProfileLookup {
    /// There is nowhere to look.
    NoCache,
    /// This is the profile.
    Found(PrincipalProfile),
    /// The profile could not be loaded.
    Failed,
}

/// What was opened for a principal.
pub struct PrincipalOverlays {
    pub kv: Option<ScopedKvStore>,
    pub secret_store: Option<SecretStore>,
    pub capsule_log: Option<CapsuleLog>,
}

/// The mounts of a principal.
pub struct PrincipalVfsBundle {
    pub home: Option<PrincipalMount>,
    pub tmp: Option<PrincipalMount>,
}

/// What was read and opened for the principal of a received message.
pub struct RecvInputs {
    /// The readings around the release of each authority, the last granted first.
    pub readings: Vec<ReleaseReading>,
    pub env_overlay: Option<EnvOverlay>,
    pub profile: ProfileLookup,
    pub overlays: PrincipalOverlays,
    pub mounts: PrincipalVfsBundle,
}

impl HostState {
    /// What a received message does to the context.
    pub open spec fn step_for(&self, msg: IpcMessage) -> RecvStep {
        if self.interceptor_active {
            RecvStep::Ignore
        } else if !self.runtime.system_runtime && msg.publisher() is Some
            && msg.publisher()->Some_0@ != self.runtime.principal@ {
            RecvStep::PeerFloor
        } else if owned_view(msg.principal) == self.installed_for()
            && self.invocation.profile_authorized {
            RecvStep::Refresh
        } else {
            RecvStep::Switch
        }
    }

    /// Whom the message that is being served names.
    pub open spec fn installed_for(&self) -> Option<Seq<char>> {
        match self.caller_context {
            Some(message) => owned_view(message.principal),
            None => None,
        }
    }

    /// What a received message does to the context.
    pub fn recv_step(&self, msg: &IpcMessage) -> (step: RecvStep)
        ensures
            step == self.step_for(*msg),
    {
        if self.interceptor_active {
            return RecvStep::Ignore;
        }
        if !self.runtime.system_runtime {
            match msg.published_by() {
                Some(publisher) => {
                    if !publisher.same(&self.runtime.principal) {
                        return RecvStep::PeerFloor;
                    }
                },
                None => {},
            }
        }
        let same: bool = match &self.caller_context {
            Some(message) => opt_eq(&msg.principal, &message.principal),
            None => msg.principal.is_none(),
        };
        if same && self.invocation.profile_authorized {
            RecvStep::Refresh
        } else {
            RecvStep::Switch
        }
    }

    /// The principal whose profile and environment a received message calls for: its publisher,
    /// else the owner.
    pub fn recv_profile_principal(&self, msg: &IpcMessage) -> (principal: PrincipalId)
        ensures
            principal == (match msg.publisher() {
                Some(publisher) => publisher,
                None => self.runtime.principal,
            }),
    {
        match msg.published_by() {
            Some(publisher) => publisher,
            None => self.runtime.principal.copy(),
        }
    }

    /// Takes every granted authority back, given the readings around each release.
    fn drain_authorities(&mut self, readings: &Vec<ReleaseReading>)
        requires
            readings@.len() == old(self).semantic_authorities.granted@.len(),
        ensures
            *final(self) == (HostState {
                semantic_authorities: final(self).semantic_authorities,
                ..*old(self)
            }),
            final(self).semantic_authorities.table == TableCounts::fresh(),
            final(self).semantic_authorities.granted@.len() == 0,
            final(self).semantic_authorities.released_units == released_over(
                old(self).semantic_authorities.released_units as int,
                readings@,
            ),
    {
        self.semantic_authorities.prepare_for_replacement(readings);
    }

    /// Installs what was opened for a principal together with its token; without a principal
    /// takes all of that off. Tells whether there is a principal.
    pub fn install_principal_overlays(
        &mut self,
        principal: &Option<PrincipalId>,
        overlays: PrincipalOverlays,
    ) -> (installed: bool)
        ensures
            installed == (*principal is Some),
            token_installed(*old(self), *final(self), *principal),
            *final(self) == (HostState {
                invocation: (Invocation {
                    kv: if *principal is Some {
                        overlays.kv
                    } else {
                        None
                    },
                    secret_store: if *principal is Some {
                        overlays.secret_store
                    } else {
                        None
                    },
                    capsule_log: if *principal is Some {
                        overlays.capsule_log
                    } else {
                        None
                    },
                    cancel_token: final(self).invocation.cancel_token,
                    ..old(self).invocation
                }),
                principal_cancel_tokens: final(self).principal_cancel_tokens,
                ..*old(self)
            }),
    {
        let installed: bool = principal.is_some();
        if installed {
            self.invocation.kv = overlays.kv;
            self.invocation.secret_store = overlays.secret_store;
            self.invocation.capsule_log = overlays.capsule_log;
        } else {
            self.invocation.kv = None;
            self.invocation.secret_store = None;
            self.invocation.capsule_log = None;
        }
        self.install_invocation_cancel_token(principal);
        installed
    }

    /// Mounts the home and the temporary directory of a principal, or none.
    pub fn install_recv_invocation_vfs(
        &mut self,
        principal: &Option<PrincipalId>,
        mounts: PrincipalVfsBundle,
    )
        ensures
            *final(self) == (HostState {
                invocation: (Invocation {
                    home: if *principal is Some {
                        mounts.home
                    } else {
                        None
                    },
                    tmp: if *principal is Some {
                        mounts.tmp
                    } else {
                        None
                    },
                    ..old(self).invocation
                }),
                ..*old(self)
            }),
    {
        if principal.is_some() {
            self.invocation.home = mounts.home;
            self.invocation.tmp = mounts.tmp;
        } else {
            self.invocation.home = None;
            self.invocation.tmp = None;
        }
    }

    /// Sets the context up for a received message. Whatever was granted to the invocation before
    /// it is taken back first, and the stamp is read from the directory anew, even when the same
    /// name comes again. Inside a dispatch nothing changes.
    pub fn install_recv_invocation_context(&mut self, msg: IpcMessage, inputs: RecvInputs)
        requires
            old(self).step_for(msg) != RecvStep::Ignore ==> inputs.readings@.len() == old(
                self,
            ).semantic_authorities.granted@.len(),
        ensures
            context_installed(*old(self), *final(self), msg, inputs),
    {
        let step = self.recv_step(&msg);
        if step == RecvStep::Ignore {
            return;
        }
        self.drain_authorities(&inputs.readings);
        let publisher = msg.published_by();
        self.stamp_from_directory(&publisher);
        match step {
            RecvStep::PeerFloor => {
                self.invocation.profile_authorized = false;
                let floor = self.runtime.default_profile.floor();
                self.invocation.profile = Some(floor);
                self.invocation.env_overlay = None;
                self.invocation.kv = None;
                self.invocation.secret_store = None;
                self.invocation.capsule_log = None;
                self.invocation.home = None;
                self.invocation.tmp = None;
                self.install_invocation_cancel_token(&publisher);
            },
            RecvStep::Refresh => {
                self.invocation.env_overlay = inputs.env_overlay;
                if self.invocation.home.is_none() {
                    self.install_recv_invocation_vfs(&publisher, inputs.mounts);
                }
                self.install_invocation_cancel_token(&publisher);
            },
            _ => {
                match inputs.profile {
                    ProfileLookup::NoCache => {
                        self.invocation.profile_authorized = true;
                        self.invocation.profile = None;
                    },
                    ProfileLookup::Found(profile) => {
                        self.invocation.profile_authorized = true;
                        self.invocation.profile = Some(profile);
                    },
                    ProfileLookup::Failed => {
                        self.invocation.profile_authorized = false;
                        let floor = self.runtime.default_profile.floor();
                        self.invocation.profile = Some(floor);
                    },
                }
                self.invocation.env_overlay = inputs.env_overlay;
                let _ = self.install_principal_overlays(&publisher, inputs.overlays);
                self.install_recv_invocation_vfs(&publisher, inputs.mounts);
            },
        }
        self.caller_context = Some(msg);
    }

    /// Sets the context up for the owner before an autonomous run. Only a runtime that belongs to
    /// a principal and runs this capsule may do so.
    pub fn install_run_loop_owner_context(
        &mut self,
        runtime_id: &RuntimeId,
        owner_profile: PrincipalProfile,
        owner_env: Option<EnvOverlay>,
    ) -> (r: Result<(), String>)
        ensures
            match r {
                Ok(()) => {
                    &&& old(self).owns_run_loop(*runtime_id)
                    &&& token_installed(*old(self), *final(self), Some(old(self).runtime.principal))
                    &&& *final(self) == (HostState {
                        invocation: (Invocation {
                            kv: Some(old(self).runtime.kv),
                            home: old(self).runtime.home,
                            tmp: old(self).runtime.tmp,
                            secret_store: Some(old(self).runtime.secret_store),
                            capsule_log: old(self).runtime.capsule_log,
                            profile: Some(owner_profile),
                            profile_authorized: true,
                            env_overlay: owner_env,
                            cancel_token: final(self).invocation.cancel_token,
                            workspace: old(self).invocation.workspace,
                        }),
                        principal_cancel_tokens: final(self).principal_cancel_tokens,
                        ..*old(self)
                    })
                },
                Err(reason) => {
                    &&& !old(self).owns_run_loop(*runtime_id)
                    &&& *final(self) == *old(self)
                    &&& reason@ == "runtime '"@ + runtime_id.capsule_id@
                        + "' is not the principal owner of capsule '"@
                        + old(self).runtime.capsule_id@ + "'"@
                },
            },
    {
        let principal_scope: bool = match &runtime_id.scope {
            RuntimeScope::Principal(_) => true,
            RuntimeScope::SystemResident => false,
        };
        if self.runtime.system_runtime || !principal_scope || !str_eq(
            runtime_id.capsule_id.as_str(),
            self.runtime.capsule_id.as_str(),
        ) {
            let named = concat3(
                "runtime '",
                runtime_id.capsule_id.as_str(),
                "' is not the principal owner of capsule '",
            );
            return Err(concat3(named.as_str(), self.runtime.capsule_id.as_str(), "'"));
        }
        self.invocation.kv = Some(self.runtime.kv.copy());
        self.invocation.home = copy_mount(&self.runtime.home);
        self.invocation.tmp = copy_mount(&self.runtime.tmp);
        self.invocation.secret_store = Some(self.runtime.secret_store);
        self.invocation.capsule_log = self.runtime.capsule_log;
        self.invocation.profile = Some(owner_profile);
        self.invocation.profile_authorized = true;
        self.invocation.env_overlay = owner_env;
        let owner = Some(self.runtime.principal.copy());
        self.install_invocation_cancel_token(&owner);
        Ok(())
    }

    /// The runtime belongs to a principal and runs this capsule, and so does this instance.
    pub open spec fn owns_run_loop(&self, runtime_id: RuntimeId) -> bool {
        &&& !self.runtime.system_runtime
        &&& runtime_id.scope is Principal
        &&& runtime_id.capsule_id@ == self.runtime.capsule_id@
    }
}

/// The profile that a lookup comes to.
pub open spec fn profile_installed(
    lookup: ProfileLookup,
    base: PrincipalProfile,
    installed: Option<PrincipalProfile>,
) -> bool {
    match lookup {
        ProfileLookup::NoCache => installed is None,
        ProfileLookup::Found(profile) => installed == Some(profile),
        ProfileLookup::Failed => installed is Some && installed->Some_0.is_floor_of(base),
    }
}

/// `given` where there is a principal, else nothing.
pub open spec fn for_someone<T>(principal: Option<PrincipalId>, given: Option<T>) -> Option<T> {
    if principal is Some {
        given
    } else {
        None
    }
}

/// What `msg` makes of the context.
pub open spec fn context_installed(
    before: HostState,
    after: HostState,
    msg: IpcMessage,
    inputs: RecvInputs,
) -> bool {
    let step = before.step_for(msg);
    let who = msg.publisher();
    if step == RecvStep::Ignore {
        after == before
    } else {
        &&& after.runtime == before.runtime
        &&& after.interceptor_active == before.interceptor_active
        &&& after.connection_principals == before.connection_principals
        &&& after.principal_directory == before.principal_directory
        &&& after.caller_context == Some(msg)
        &&& after.stamp@ == directory_stamp(before.principal_directory@, who)
        &&& after.semantic_authorities.table == TableCounts::fresh()
        &&& after.semantic_authorities.granted@.len() == 0
        &&& after.semantic_authorities.released_units == released_over(
            before.semantic_authorities.released_units as int,
            inputs.readings@,
        )
        &&& token_installed(before, after, who)
        &&& after.invocation.workspace == before.invocation.workspace
        &&& match step {
            RecvStep::PeerFloor => {
                &&& !after.invocation.profile_authorized
                &&& after.invocation.profile is Some
                &&& after.invocation.profile->Some_0.is_floor_of(before.runtime.default_profile)
                &&& after.invocation.env_overlay is None
                &&& after.invocation.kv is None
                &&& after.invocation.secret_store is None
                &&& after.invocation.capsule_log is None
                &&& after.invocation.home is None
                &&& after.invocation.tmp is None
            },
            RecvStep::Refresh => {
                &&& after.invocation.profile_authorized == before.invocation.profile_authorized
                &&& after.invocation.profile == before.invocation.profile
                &&& after.invocation.env_overlay == inputs.env_overlay
                &&& after.invocation.kv == before.invocation.kv
                &&& after.invocation.secret_store == before.invocation.secret_store
                &&& after.invocation.capsule_log == before.invocation.capsule_log
                &&& after.invocation.home == (if before.invocation.home is Some {
                    before.invocation.home
                } else {
                    for_someone(who, inputs.mounts.home)
                })
                &&& after.invocation.tmp == (if before.invocation.home is Some {
                    before.invocation.tmp
                } else {
                    for_someone(who, inputs.mounts.tmp)
                })
            },
            _ => {
                &&& after.invocation.profile_authorized == !(inputs.profile is Failed)
                &&& profile_installed(
                    inputs.profile,
                    before.runtime.default_profile,
                    after.invocation.profile,
                )
                &&& after.invocation.env_overlay == inputs.env_overlay
                &&& after.invocation.kv == for_someone(who, inputs.overlays.kv)
                &&& after.invocation.secret_store == for_someone(who, inputs.overlays.secret_store)
                &&& after.invocation.capsule_log == for_someone(who, inputs.overlays.capsule_log)
                &&& after.invocation.home == for_someone(who, inputs.mounts.home)
                &&& after.invocation.tmp == for_someone(who, inputs.mounts.tmp)
            },
        }
    }
}

/// Outside a dispatch, whoever publishes properly is the caller from then on.
pub proof fn law_publisher_becomes_caller(
    before: HostState,
    after: HostState,
    msg: IpcMessage,
    inputs: RecvInputs,
)
    requires
        context_installed(before, after, msg, inputs),
        !before.interceptor_active,
        msg.publisher() is Some,
    ensures
        after.caller() == msg.publisher()->Some_0,
{
}

/// Outside a dispatch, no stamp outlives the message it was set for: the stamp is what the
/// directory has for the publisher now, and without a publisher there is none.
pub proof fn law_stamp_is_read_anew(
    before: HostState,
    after: HostState,
    msg: IpcMessage,
    inputs: RecvInputs,
)
    requires
        context_installed(before, after, msg, inputs),
        !before.interceptor_active,
    ensures
        msg.publisher() is None ==> after.stamp@ is None,
        msg.publisher() is Some && !before.principal_directory@.contains_key(msg.publisher()->Some_0@)
            ==> after.stamp@ is None,
        after.stamp@ is Some ==> msg.publisher() is Some
            && before.principal_directory@.contains_key(msg.publisher()->Some_0@) && after.stamp@
            == Some(before.principal_directory@[msg.publisher()->Some_0@]@),
{
}

/// Inside a dispatch, no message that is received changes who calls, what is in effect for the
/// caller, or the stamp.
pub proof fn law_dispatch_keeps_caller(
    before: HostState,
    after: HostState,
    msg: IpcMessage,
    inputs: RecvInputs,
)
    requires
        context_installed(before, after, msg, inputs),
        before.interceptor_active,
    ensures
        after == before,
{
}

/// A context that is set up anew never lets one principal see what was opened for another: every
/// view is either the one opened for this message or none, and a message without a principal
/// sees none.
pub proof fn law_switch_isolates(
    before: HostState,
    after: HostState,
    msg: IpcMessage,
    inputs: RecvInputs,
)
    requires
        context_installed(before, after, msg, inputs),
        before.step_for(msg) == RecvStep::Switch,
    ensures
        after.invocation.kv is None || (msg.publisher() is Some && after.invocation.kv
            == inputs.overlays.kv),
        after.invocation.secret_store is None || (msg.publisher() is Some
            && after.invocation.secret_store == inputs.overlays.secret_store),
        after.invocation.home is None || (msg.publisher() is Some && after.invocation.home
            == inputs.mounts.home),
        after.invocation.tmp is None || (msg.publisher() is Some && after.invocation.tmp
            == inputs.mounts.tmp),
        msg.publisher() is None ==> after.invocation.kv is None && after.invocation.secret_store
            is None && after.invocation.cancel_token is None,
{
}

/// A message from a peer to an instance that serves its owner alone leaves no authority: the
/// profile is not authorised, and it is restricted.
pub proof fn law_peer_gets_no_authority(
    before: HostState,
    after: HostState,
    msg: IpcMessage,
    inputs: RecvInputs,
)
    requires
        context_installed(before, after, msg, inputs),
        before.step_for(msg) == RecvStep::PeerFloor,
    ensures
        !after.invocation.profile_authorized,
        after.profile().restricted(),
        after.invocation.kv is None,
        after.invocation.home is None,
{
    let groups = crate::text::views(after.profile().groups@);
    assert(groups[0] == crate::host_state::types::restricted_group());
}

/// A failed lookup of a profile leaves no authority either, and the next message of the same
/// principal looks again.
pub proof fn law_failed_profile_is_retried(
    before: HostState,
    after: HostState,
    msg: IpcMessage,
    inputs: RecvInputs,
    next: IpcMessage,
)
    requires
        context_installed(before, after, msg, inputs),
        before.step_for(msg) == RecvStep::Switch,
        inputs.profile is Failed,
        next.publisher() == msg.publisher(),
    ensures
        after.profile().restricted(),
        after.step_for(next) == RecvStep::Switch,
{
    let groups = crate::text::views(after.profile().groups@);
    assert(groups[0] == crate::host_state::types::restricted_group());
}

/// A retired principal stays retired: whoever installs its token gets the one that the table
/// has, until the table forgets it.
pub proof fn law_retired_token_stays(
    before: HostState,
    after: HostState,
    principal: PrincipalId,
)
    requires
        token_installed(before, after, Some(principal)),
        before.principal_cancel_tokens@.contains_key(principal@),
    ensures
        after.invocation.cancel_token == Some(before.principal_cancel_tokens@[principal@]),
        after.principal_cancel_tokens@ == before.principal_cancel_tokens@,
{
}

} // verus!
