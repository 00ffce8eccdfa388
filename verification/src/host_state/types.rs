//! The values that the state of an instance is made of.

use vstd::prelude::*;

use crate::names::NameMap;
use crate::text::{contains_string, copy_strings, str_eq, views};

verus! {

/// The lifecycle phase that a capsule is executing in.
#[derive(Debug, Clone, Copy, PartialEq, Eq, Structural)]
pub enum LifecyclePhase {
    /// First-time installation.
    Install,
    /// Upgrading from a previous version.
    Upgrade,
}

/// Someone on whose behalf capsules run. The text is a well-formed principal name.
#[derive(Debug, PartialEq, Eq)]
pub struct PrincipalId {
    pub name: String,
}

impl View for PrincipalId {
    type V = Seq<char>;

    open spec fn view(&self) -> Seq<char> {
        self.name@
    }
}

impl PrincipalId {
    /// The same principal.
    pub fn copy(&self) -> (r: Self)
        ensures
            r == *self,
    {
        PrincipalId { name: self.name.clone() }
    }

    /// Whether two principals are the same.
    pub fn same(&self, other: &PrincipalId) -> (r: bool)
        ensures
            r == (self@ == other@),
    {
        str_eq(self.name.as_str(), other.name.as_str())
    }
}

/// The transport by which a request came in, as the host saw it.
#[derive(Debug, Clone, Copy, PartialEq, Eq, Structural)]
pub enum MessageOrigin {
    /// The host itself, or nobody in particular.
    System,
    /// A peer on the local socket whose identity was verified.
    LocalSocket,
}

/// A message that a capsule is serving.
pub struct IpcMessage {
    pub topic: String,
    /// The principal that the message names, whether or not the name is well-formed.
    pub principal: Option<String>,
    /// Whether that name is well-formed.
    pub well_formed: bool,
    pub origin: MessageOrigin,
    pub source_id: String,
    pub timestamp: String,
    /// The call that a tool invocation belongs to.
    pub call_id: Option<String>,
}

impl IpcMessage {
    /// Who published the message: the principal that it names, if the name is well-formed.
    pub open spec fn publisher(self) -> Option<PrincipalId> {
        match self.principal {
            Some(name) if self.well_formed => Some(PrincipalId { name }),
            _ => None,
        }
    }

    /// Who published the message.
    pub fn published_by(&self) -> (publisher: Option<PrincipalId>)
        ensures
            publisher == self.publisher(),
    {
        match &self.principal {
            Some(name) => {
                if self.well_formed {
                    Some(PrincipalId { name: name.clone() })
                } else {
                    None
                }
            },
            None => None,
        }
    }
}

/// The part of the key-value store that one principal and one capsule share.
pub struct ScopedKvStore {
    pub namespace: String,
}

impl ScopedKvStore {
    /// The same part.
    pub fn copy(&self) -> (r: Self)
        ensures
            r == *self,
    {
        ScopedKvStore { namespace: self.namespace.clone() }
    }
}

/// Where a mount is rooted.
pub enum PrincipalMountLocation {
    /// At a directory of the host.
    Native(String),
    /// In the durable filesystem, which has no directory of the host.
    AstridFilesystem,
}

/// A mounted part of a filesystem.
pub struct PrincipalMount {
    pub location: PrincipalMountLocation,
    /// The handle by which the mounted filesystem is found.
    pub handle: u64,
}

impl PrincipalMount {
    /// The same mount.
    pub fn copy(&self) -> (r: Self)
        ensures
            r == *self,
    {
        let location = match &self.location {
            PrincipalMountLocation::Native(root) => PrincipalMountLocation::Native(root.clone()),
            PrincipalMountLocation::AstridFilesystem => PrincipalMountLocation::AstridFilesystem,
        };
        PrincipalMount { location, handle: self.handle }
    }
}

/// A copy of an optional mount.
pub fn copy_mount(mount: &Option<PrincipalMount>) -> (r: Option<PrincipalMount>)
    ensures
        r == *mount,
{
    match mount {
        Some(m) => Some(m.copy()),
        None => None,
    }
}

/// A store of secrets, by the handle under which it is found.
#[derive(Debug, Clone, Copy, PartialEq, Eq, Structural)]
pub struct SecretStore {
    pub handle: u64,
}

/// An open log file, by the handle under which it is found.
#[derive(Debug, Clone, Copy, PartialEq, Eq, Structural)]
pub struct CapsuleLog {
    pub handle: u64,
}

/// How much a principal may use.
#[derive(Debug, Clone, Copy, PartialEq, Eq, Structural)]
pub struct Quotas {
    pub max_memory_bytes: u64,
    pub max_timeout_secs: u64,
    pub max_background_processes: u32,
}

/// What a principal may do and use.
pub struct PrincipalProfile {
    pub groups: Vec<String>,
    /// Endpoints that a restricted principal may reach, each a host and a port or `*`.
    pub egress: Vec<String>,
    /// Programs that a restricted principal may start.
    pub process_allow: Vec<String>,
    pub quotas: Quotas,
}

/// The group whose members may reach and start only what their profile names.
pub open spec fn restricted_group() -> Seq<char> {
    "restricted"@
}

impl PrincipalProfile {
    /// The profile puts the principal into the restricted group.
    pub open spec fn restricted(self) -> bool {
        views(self.groups@).contains(restricted_group())
    }

    /// The profile is `base` but for its groups: it is in the restricted group alone.
    pub open spec fn is_floor_of(self, base: PrincipalProfile) -> bool {
        &&& views(self.groups@) == seq![restricted_group()]
        &&& self.egress@ == base.egress@
        &&& self.process_allow@ == base.process_allow@
        &&& self.quotas == base.quotas
    }

    /// Whether the profile puts the principal into the restricted group.
    pub fn is_restricted(&self) -> (r: bool)
        ensures
            r == self.restricted(),
    {
        contains_string(&self.groups, "restricted")
    }

    /// The profile that is installed when the right one cannot be: the defaults, restricted.
    pub fn floor(&self) -> (r: Self)
        ensures
            r.is_floor_of(*self),
    {
        let mut groups: Vec<String> = Vec::new();
        groups.push("restricted".to_owned());
        assert(views(groups@) =~= seq![restricted_group()]);
        PrincipalProfile {
            groups,
            egress: copy_strings(&self.egress),
            process_allow: copy_strings(&self.process_allow),
            quotas: self.quotas,
        }
    }
}

/// The environment that an operator wrote for a principal.
pub struct EnvOverlay {
    pub values: NameMap<String>,
}

/// Which runtime an instance is.
pub enum RuntimeScope {
    /// It serves the whole system.
    SystemResident,
    /// It belongs to one principal, known by this id.
    Principal(Vec<u8>),
}

/// The identity of a runtime.
pub struct RuntimeId {
    pub capsule_id: String,
    pub scope: RuntimeScope,
}

/// Proof that the host knows who an invocation is for: the durable id of the principal.
pub struct StampedInvocation {
    pub uid: Vec<u8>,
}

impl StampedInvocation {
    /// The same stamp.
    pub fn copy(&self) -> (r: Self)
        ensures
            r.uid@ == self.uid@,
    {
        let mut uid: Vec<u8> = Vec::new();
        let mut i: usize = 0;
        while i < self.uid.len()
            invariant
                i <= self.uid@.len(),
                uid@ == self.uid@.take(i as int),
            decreases self.uid.len() - i,
        {
            uid.push(self.uid[i]);
            i += 1;
        }
        assert(self.uid@.take(self.uid@.len() as int) =~= self.uid@);
        StampedInvocation { uid }
    }
}

} // verus!
