//! What an instance was loaded with, what is installed for the invocation that it serves, and
//! which of the two is in effect.

use tokio_util::sync::CancellationToken;
use vstd::prelude::*;

use crate::cancel::{may_answer, may_derive, share, token_for, PrincipalCancelTokens};
use crate::connections::{ConnectionIdentity, Connections};
use crate::host_state::authority::{HostStateSemanticAuthorities, TableCounts};
use crate::host_state::types::{
    CapsuleLog, EnvOverlay, IpcMessage, MessageOrigin, PrincipalId, PrincipalMount,
    PrincipalMountLocation, PrincipalProfile, ScopedKvStore, SecretStore, StampedInvocation,
};
use crate::names::NameMap;
use crate::text::concat3;

verus! {

/// What an instance was loaded with.
pub struct Runtime {
    /// The owner.
    pub principal: PrincipalId,
    pub capsule_id: String,
    /// Whether the instance serves the whole system rather than its owner.
    pub system_runtime: bool,
    pub kv: ScopedKvStore,
    pub home: Option<PrincipalMount>,
    pub tmp: Option<PrincipalMount>,
    pub workspace: Option<PrincipalMount>,
    pub secret_store: SecretStore,
    pub capsule_log: Option<CapsuleLog>,
    /// Cancelled when the instance is torn down.
    pub cancel_token: CancellationToken,
    /// The profile of whoever has none.
    pub default_profile: PrincipalProfile,
}

/// What is installed for the invocation that an instance serves.
pub struct Invocation {
    pub kv: Option<ScopedKvStore>,
    pub home: Option<PrincipalMount>,
    pub tmp: Option<PrincipalMount>,
    pub workspace: Option<PrincipalMount>,
    pub secret_store: Option<SecretStore>,
    pub capsule_log: Option<CapsuleLog>,
    pub profile: Option<PrincipalProfile>,
    /// Whether the profile was found, so that the invocation has any authority at all.
    pub profile_authorized: bool,
    pub env_overlay: Option<EnvOverlay>,
    pub cancel_token: Option<CancellationToken>,
}

/// The durable ids of the principals, by their present names.
pub type PrincipalDirectory = NameMap<Vec<u8>>;

/// The stamp of an invocation. Only the host can set it, and only from its directory.
pub struct StampSlot {
    pub(crate) stamped_invocation: Option<StampedInvocation>,
}

impl View for StampSlot {
    type V = Option<Seq<u8>>;

    closed spec fn view(&self) -> Option<Seq<u8>> {
        match self.stamped_invocation {
            Some(stamp) => Some(stamp.uid@),
            None => None,
        }
    }
}

impl StampSlot {
    /// No stamp.
    pub fn unspecified() -> (slot: Self)
        ensures
            slot@ is None,
    {
        StampSlot { stamped_invocation: None }
    }

    /// The durable id of the stamp.
    pub fn uid(&self) -> (uid: Option<Vec<u8>>)
        ensures
            match uid {
                Some(bytes) => self@ == Some(bytes@),
                None => self@ is None,
            },
    {
        match &self.stamped_invocation {
            Some(stamp) => Some(stamp.copy().uid),
            None => None,
        }
    }

    /// The stamp of a principal: the durable id that the directory has under the present name of
    /// the principal, or none.
    pub fn from_directory(directory: &PrincipalDirectory, principal: &Option<PrincipalId>) -> (slot:
        Self)
        ensures
            slot@ == directory_stamp(directory@, *principal),
    {
        let stamped_invocation = match principal {
            Some(p) => match directory.get(p.name.as_str()) {
                Some(uid) => {
                    let mut bytes: Vec<u8> = Vec::new();
                    bytes.extend_from_slice(uid.as_slice());
                    assert(bytes@ =~= uid@);
                    Some(StampedInvocation { uid: bytes })
                },
                None => None,
            },
            None => None,
        };
        StampSlot { stamped_invocation }
    }
}

/// The durable id that a directory has for an optional principal.
pub open spec fn directory_stamp(
    directory: Map<Seq<char>, Vec<u8>>,
    principal: Option<PrincipalId>,
) -> Option<Seq<u8>> {
    match principal {
        Some(p) => if directory.contains_key(p@) {
            Some(directory[p@]@)
        } else {
            None
        },
        None => None,
    }
}

/// The state of an instance.
pub struct HostState {
    pub runtime: Runtime,
    pub invocation: Invocation,
    /// The message that is being served.
    pub caller_context: Option<IpcMessage>,
    /// Whether the caller was set by a dispatch, which messages received meanwhile do not change.
    pub interceptor_active: bool,
    pub principal_cancel_tokens: PrincipalCancelTokens,
    pub connection_principals: Connections,
    pub semantic_authorities: HostStateSemanticAuthorities,
    pub principal_directory: PrincipalDirectory,
    pub stamp: StampSlot,
}

/// `overlay` if there is one, else `base`.
pub open spec fn preferred<T>(overlay: Option<T>, base: Option<T>) -> Option<T> {
    if overlay is Some {
        overlay
    } else {
        base
    }
}

impl Invocation {
    /// Nothing is installed, and nothing stands against the invocation.
    pub open spec fn is_none(self) -> bool {
        &&& self.kv is None
        &&& self.home is None
        &&& self.tmp is None
        &&& self.workspace is None
        &&& self.secret_store is None
        &&& self.capsule_log is None
        &&& self.profile is None
        &&& self.profile_authorized
        &&& self.env_overlay is None
        &&& self.cancel_token is None
    }

    /// Nothing is installed.
    pub fn none() -> (r: Self)
        ensures
            r.is_none(),
    {
        Invocation {
            kv: None,
            home: None,
            tmp: None,
            workspace: None,
            secret_store: None,
            capsule_log: None,
            profile: None,
            profile_authorized: true,
            env_overlay: None,
            cancel_token: None,
        }
    }
}

impl HostState {
    /// A fresh instance: nothing is installed, nobody calls, and no stamp is set.
    pub fn new(runtime: Runtime) -> (state: Self)
        ensures
            state.runtime == runtime,
            state.invocation.is_none(),
            state.caller_context is None,
            !state.interceptor_active,
            state.principal_cancel_tokens@ == Map::<Seq<char>, CancellationToken>::empty(),
            state.connection_principals@ == Map::<u32, ConnectionIdentity>::empty(),
            state.semantic_authorities.table == TableCounts::fresh(),
            state.semantic_authorities.granted@.len() == 0,
            state.semantic_authorities.released_units == 0,
            state.principal_directory@ == Map::<Seq<char>, Vec<u8>>::empty(),
            state.stamp@ is None,
    {
        HostState {
            runtime,
            invocation: Invocation::none(),
            caller_context: None,
            interceptor_active: false,
            principal_cancel_tokens: Self::new_principal_cancel_tokens(),
            connection_principals: Self::new_connection_principals(),
            semantic_authorities: HostStateSemanticAuthorities::new(),
            principal_directory: NameMap::new(),
            stamp: StampSlot::unspecified(),
        }
    }

    /// Stamps the invocation with the durable id of a principal, or with none where the directory
    /// has none. There is no other way to be stamped: an old id does not come back.
    pub fn stamp_from_directory(&mut self, principal: &Option<PrincipalId>)
        ensures
            *final(self) == (HostState { stamp: final(self).stamp, ..*old(self) }),
            final(self).stamp@ == directory_stamp(old(self).principal_directory@, *principal),
    {
        self.stamp = StampSlot::from_directory(&self.principal_directory, principal);
    }

    /// No principal has a token.
    pub fn new_principal_cancel_tokens() -> (tokens: PrincipalCancelTokens)
        ensures
            tokens@ == Map::<Seq<char>, CancellationToken>::empty(),
    {
        NameMap::new()
    }

    /// No connection is bound.
    pub fn new_connection_principals() -> (connections: Connections)
        ensures
            connections@ == Map::<u32, ConnectionIdentity>::empty(),
    {
        Connections::new()
    }

    /// The part of the key-value store in effect: that of the invocation, else that of the owner.
    pub fn effective_kv(&self) -> (kv: &ScopedKvStore)
        ensures
            *kv == (match self.invocation.kv {
                Some(own) => own,
                None => self.runtime.kv,
            }),
    {
        match &self.invocation.kv {
            Some(kv) => kv,
            None => &self.runtime.kv,
        }
    }

    /// The name of the key-value space of the caller and this capsule.
    pub fn principal_kv_namespace(&self) -> (name: String)
        ensures
            name@ == self.caller()@ + ":capsule:"@ + self.runtime.capsule_id@,
    {
        let principal = self.effective_principal();
        concat3(principal.name.as_str(), ":capsule:", self.runtime.capsule_id.as_str())
    }

    /// The home mount in effect.
    pub fn effective_home(&self) -> (mount: Option<&PrincipalMount>)
        ensures
            match mount {
                Some(m) => preferred(self.invocation.home, self.runtime.home) == Some(*m),
                None => preferred(self.invocation.home, self.runtime.home) is None,
            },
    {
        match &self.invocation.home {
            Some(mount) => Some(mount),
            None => self.runtime.home.as_ref(),
        }
    }

    /// The mount for temporary files in effect.
    pub fn effective_tmp(&self) -> (mount: Option<&PrincipalMount>)
        ensures
            match mount {
                Some(m) => preferred(self.invocation.tmp, self.runtime.tmp) == Some(*m),
                None => preferred(self.invocation.tmp, self.runtime.tmp) is None,
            },
    {
        match &self.invocation.tmp {
            Some(mount) => Some(mount),
            None => self.runtime.tmp.as_ref(),
        }
    }

    /// The workspace mount in effect.
    pub fn effective_workspace(&self) -> (mount: Option<&PrincipalMount>)
        ensures
            match mount {
                Some(m) => preferred(self.invocation.workspace, self.runtime.workspace) == Some(*m),
                None => preferred(self.invocation.workspace, self.runtime.workspace) is None,
            },
    {
        match &self.invocation.workspace {
            Some(mount) => Some(mount),
            None => self.runtime.workspace.as_ref(),
        }
    }

    /// The directory at which the home mount in effect is rooted, if it has one.
    pub fn effective_home_root_buf(&self) -> (root: Option<String>)
        ensures
            root == (match preferred(self.invocation.home, self.runtime.home) {
                Some(mount) => match mount.location {
                    PrincipalMountLocation::Native(dir) => Some(dir),
                    PrincipalMountLocation::AstridFilesystem => None,
                },
                None => None,
            }),
    {
        match self.effective_home() {
            Some(mount) => match &mount.location {
                PrincipalMountLocation::Native(dir) => Some(dir.clone()),
                PrincipalMountLocation::AstridFilesystem => None,
            },
            None => None,
        }
    }

    /// The store of secrets in effect.
    pub fn effective_secret_store(&self) -> (store: &SecretStore)
        ensures
            *store == (match self.invocation.secret_store {
                Some(own) => own,
                None => self.runtime.secret_store,
            }),
    {
        match &self.invocation.secret_store {
            Some(store) => store,
            None => &self.runtime.secret_store,
        }
    }

    /// The log file in effect.
    pub fn effective_capsule_log(&self) -> (log: Option<&CapsuleLog>)
        ensures
            match log {
                Some(l) => preferred(self.invocation.capsule_log, self.runtime.capsule_log) == Some(
                    *l,
                ),
                None => preferred(self.invocation.capsule_log, self.runtime.capsule_log) is None,
            },
    {
        match &self.invocation.capsule_log {
            Some(log) => Some(log),
            None => self.runtime.capsule_log.as_ref(),
        }
    }

    /// Who calls: the principal of the message that is being served, if it names one properly,
    /// else the owner.
    pub open spec fn caller(&self) -> PrincipalId {
        match self.caller_context {
            Some(message) => match message.publisher() {
                Some(principal) => principal,
                None => self.runtime.principal,
            },
            None => self.runtime.principal,
        }
    }

    /// Who calls.
    pub fn effective_principal(&self) -> (principal: PrincipalId)
        ensures
            principal == self.caller(),
    {
        match &self.caller_context {
            Some(message) => match message.published_by() {
                Some(principal) => principal,
                None => self.runtime.principal.copy(),
            },
            None => self.runtime.principal.copy(),
        }
    }

    /// Who calls, if a message says so; the owner does not stand in.
    pub fn authenticated_principal(&self) -> (principal: Option<PrincipalId>)
        ensures
            principal == (match self.caller_context {
                Some(message) => message.publisher(),
                None => None,
            }),
    {
        match &self.caller_context {
            Some(message) => message.published_by(),
            None => None,
        }
    }

    /// The transport by which the request came in; without a request, none that is local.
    pub fn effective_origin(&self) -> (origin: MessageOrigin)
        ensures
            origin == (match self.caller_context {
                Some(message) => message.origin,
                None => MessageOrigin::System,
            }),
    {
        match &self.caller_context {
            Some(message) => message.origin,
            None => MessageOrigin::System,
        }
    }

    /// The call that the request belongs to.
    pub fn extract_call_id(&self) -> (call_id: Option<String>)
        ensures
            call_id == (match self.caller_context {
                Some(message) => message.call_id,
                None => None,
            }),
    {
        match &self.caller_context {
            Some(message) => crate::text::copy_opt(&message.call_id),
            None => None,
        }
    }

    /// The token in effect: that of the principal, else that of the instance.
    pub open spec fn token(&self) -> CancellationToken {
        match self.invocation.cancel_token {
            Some(own) => own,
            None => self.runtime.cancel_token,
        }
    }

    /// The token that waits of this invocation listen to: that of the principal, else that of the
    /// instance.
    pub fn effective_cancel_token(&self) -> (token: CancellationToken)
        ensures
            token == self.token(),
    {
        match &self.invocation.cancel_token {
            Some(token) => share(token),
            None => share(&self.runtime.cancel_token),
        }
    }

    /// Whether the invocation has any authority, given whether the token in effect is cancelled.
    pub fn authority_given(&self, cancelled: bool) -> (active: bool)
        ensures
            active == (self.invocation.profile_authorized && !cancelled),
    {
        self.invocation.profile_authorized && !cancelled
    }

    /// Whether the invocation has any authority at this moment: it has a profile, and the token in
    /// effect, which may be cancelled at any time, says that it is not.
    pub fn invocation_authority_active(&self) -> (active: bool)
        ensures
            exists|cancelled: bool| #[trigger]
                may_answer(self.token(), cancelled) && active == (
                self.invocation.profile_authorized && !cancelled),
    {
        let cancelled: bool = self.effective_cancel_token().is_cancelled();
        assert(may_answer(self.token(), cancelled));
        self.authority_given(cancelled)
    }

    /// The profile in effect: that of the invocation, else the default. The profile of the owner
    /// does not stand in.
    pub open spec fn profile(&self) -> PrincipalProfile {
        match self.invocation.profile {
            Some(own) => own,
            None => self.runtime.default_profile,
        }
    }

    /// The profile in effect.
    pub fn effective_profile(&self) -> (profile: &PrincipalProfile)
        ensures
            *profile == self.profile(),
    {
        match &self.invocation.profile {
            Some(profile) => profile,
            None => &self.runtime.default_profile,
        }
    }

    /// Binds a verified identity to the connection `rep`.
    pub fn bind_connection_principal(&mut self, rep: u32, identity: ConnectionIdentity)
        ensures
            final(self).connection_principals@ == old(self).connection_principals@.insert(
                rep,
                identity,
            ),
            *final(self) == (HostState {
                connection_principals: final(self).connection_principals,
                ..*old(self)
            }),
    {
        self.connection_principals.bind(rep, identity);
    }

    /// The principal that was verified for the connection `rep`.
    pub fn connection_principal(&self, rep: u32) -> (principal: Option<String>)
        ensures
            match principal {
                Some(name) => self.connection_principals@.contains_key(rep) && name
                    == self.connection_principals@[rep].principal,
                None => !self.connection_principals@.contains_key(rep),
            },
    {
        match self.connection_principals.lookup(rep) {
            Some(identity) => Some(identity.principal),
            None => None,
        }
    }

    /// Removes the identity of the connection `rep`.
    pub fn unbind_connection_principal(&mut self, rep: u32)
        ensures
            final(self).connection_principals@ == old(self).connection_principals@.remove(rep),
            *final(self) == (HostState {
                connection_principals: final(self).connection_principals,
                ..*old(self)
            }),
    {
        self.connection_principals.unbind(rep);
    }

    /// Installs the token of a principal, or none.
    pub fn install_invocation_cancel_token(&mut self, principal: &Option<PrincipalId>)
        ensures
            token_installed(*old(self), *final(self), *principal),
            *final(self) == (HostState {
                invocation: (Invocation {
                    cancel_token: final(self).invocation.cancel_token,
                    ..old(self).invocation
                }),
                principal_cancel_tokens: final(self).principal_cancel_tokens,
                ..*old(self)
            }),
    {
        match principal {
            Some(p) => {
                let token = token_for(
                    &mut self.principal_cancel_tokens,
                    &self.runtime.cancel_token,
                    p.name.as_str(),
                );
                self.invocation.cancel_token = Some(token);
            },
            None => {
                self.invocation.cancel_token = None;
            },
        }
    }

    /// Takes the token of a departed principal off, given whether the tokens of the instance and
    /// of the invocation are cancelled. A live token stays, and so does a cancelled one when the
    /// whole instance goes.
    pub fn clear_stale_token_given(&mut self, instance_cancelled: bool, own_cancelled: bool)
        ensures
            final(self).invocation.cancel_token == (if !instance_cancelled && own_cancelled {
                None
            } else {
                old(self).invocation.cancel_token
            }),
            *final(self) == (HostState {
                invocation: (Invocation {
                    cancel_token: final(self).invocation.cancel_token,
                    ..old(self).invocation
                }),
                ..*old(self)
            }),
    {
        if !instance_cancelled && own_cancelled {
            self.invocation.cancel_token = None;
        }
    }

    /// Takes the token of a departed principal off, so that the next wait listens to the instance.
    /// The token of the principal itself is not forgotten. Both tokens are asked, and the one of
    /// the invocation is taken off if it alone says that it is cancelled.
    pub fn clear_stale_invocation_cancel_token(&mut self)
        ensures
            exists|instance_cancelled: bool, own_cancelled: bool|
                {
                    &&& #[trigger] may_answer(old(self).runtime.cancel_token, instance_cancelled)
                    &&& #[trigger] own_answer(old(self).invocation.cancel_token, own_cancelled)
                    &&& final(self).invocation.cancel_token == (if !instance_cancelled
                        && own_cancelled {
                        None
                    } else {
                        old(self).invocation.cancel_token
                    })
                },
            *final(self) == (HostState {
                invocation: (Invocation {
                    cancel_token: final(self).invocation.cancel_token,
                    ..old(self).invocation
                }),
                ..*old(self)
            }),
    {
        let instance_cancelled: bool = self.runtime.cancel_token.is_cancelled();
        let own_cancelled: bool = match &self.invocation.cancel_token {
            Some(token) => token.is_cancelled(),
            None => false,
        };
        assert(may_answer(self.runtime.cancel_token, instance_cancelled));
        assert(own_answer(self.invocation.cancel_token, own_cancelled));
        self.clear_stale_token_given(instance_cancelled, own_cancelled);
    }
}

/// This is an answer of the token of an invocation. Where there is no token, none is cancelled.
pub open spec fn own_answer(token: Option<CancellationToken>, cancelled: bool) -> bool {
    match token {
        Some(own) => may_answer(own, cancelled),
        None => !cancelled,
    }
}

/// The token of `principal` is installed: the one that the table has, or one that is new to it and
/// derived from the token of the instance.
pub open spec fn token_installed(
    before: HostState,
    after: HostState,
    principal: Option<PrincipalId>,
) -> bool {
    match principal {
        Some(p) => {
            &&& after.principal_cancel_tokens@.contains_key(p@)
            &&& after.invocation.cancel_token == Some(after.principal_cancel_tokens@[p@])
            &&& after.principal_cancel_tokens@ == (if before.principal_cancel_tokens@.contains_key(
                p@,
            ) {
                before.principal_cancel_tokens@
            } else {
                before.principal_cancel_tokens@.insert(p@, after.principal_cancel_tokens@[p@])
            })
            &&& !before.principal_cancel_tokens@.contains_key(p@) ==> may_derive(
                before.runtime.cancel_token,
                after.principal_cancel_tokens@[p@],
            )
        },
        None => after.invocation.cancel_token is None && after.principal_cancel_tokens
            == before.principal_cancel_tokens,
    }
}

} // verus!
