//! The typed policy document. Every category is optional, so that an absent
//! category and an explicitly empty one stay distinguishable.

use vstd::prelude::*;

verus! {

/// A kind of access to a storage resource.
#[derive(Clone, Copy, Debug, PartialEq, Eq, Structural)]
pub enum AccessType {
    Read,
    Write,
    Execute,
    Delete,
}

/// One storage resource and the kinds of access the entry speaks of.
#[derive(Clone, Debug, PartialEq, Eq)]
pub struct StoragePermission {
    pub uri: String,
    pub access: Vec<AccessType>,
}

/// A single host name.
#[derive(Clone, Debug, PartialEq, Eq)]
pub struct NetworkHostPermission {
    pub host: String,
}

/// An IPv4 or IPv6 block in CIDR notation.
#[derive(Clone, Debug, PartialEq, Eq)]
pub struct NetworkCidrPermission {
    pub cidr: String,
}

/// A network entry: either a host name or a CIDR block.
#[derive(Clone, Debug, PartialEq, Eq)]
pub enum NetworkPermission {
    Host(NetworkHostPermission),
    Cidr(NetworkCidrPermission),
}

/// Which form a network entry has.
#[derive(Clone, Copy, Debug, PartialEq, Eq, Structural)]
pub enum NetworkKind {
    Host,
    Cidr,
}

/// One environment variable that may be read.
#[derive(Clone, Debug, PartialEq, Eq)]
pub struct EnvironmentPermission {
    pub key: String,
}

/// Environment variables are allow-only.
#[derive(Clone, Debug, PartialEq, Eq)]
pub struct EnvironmentPermissions {
    pub allow: Option<Vec<EnvironmentPermission>>,
}

/// A resource or IPC endpoint, named by its identifier.
#[derive(Clone, Debug, PartialEq, Eq)]
pub struct ResourcePermission {
    pub id: String,
}

/// An allow list and a deny list over one kind of entry.
#[derive(Clone, Debug, PartialEq, Eq)]
pub struct PermissionList<T> {
    pub allow: Option<Vec<T>>,
    pub deny: Option<Vec<T>>,
}

/// A Linux capability, or the wildcard `All`.
#[derive(Clone, Copy, Debug, PartialEq, Eq, Structural)]
pub enum CapabilityAction {
    All,
    AuditWrite,
    Chown,
    DacOverride,
    Fowner,
    Fsetid,
    Kill,
    Mknod,
    NetAdmin,
    NetBindService,
    NetRaw,
    Setfcap,
    Setgid,
    Setpcap,
    Setuid,
    SysAdmin,
    SysChroot,
    SysPtrace,
    SysTime,
}

/// Capabilities taken from and given to a container.
#[derive(Clone, Debug, PartialEq, Eq)]
pub struct DockerCapabilities {
    pub drop: Option<Vec<CapabilityAction>>,
    pub add: Option<Vec<CapabilityAction>>,
}

/// Security controls of a Docker container.
#[derive(Clone, Debug, PartialEq, Eq)]
pub struct DockerSecurity {
    pub privileged: Option<bool>,
    pub no_new_privileges: Option<bool>,
    pub capabilities: Option<DockerCapabilities>,
}

/// The Docker sub-policy.
#[derive(Clone, Debug, PartialEq, Eq)]
pub struct DockerRuntime {
    pub security: Option<DockerSecurity>,
}

/// Reserved for the Hyperlight runtime; it carries no settings yet.
#[derive(Clone, Debug, PartialEq, Eq)]
pub struct HyperlightRuntime {
}

/// Runtime-specific sub-policies.
#[derive(Clone, Debug, PartialEq, Eq)]
pub struct Runtime {
    pub docker: Option<DockerRuntime>,
    pub hyperlight: Option<HyperlightRuntime>,
}

/// The permission categories of a document.
#[derive(Clone, Debug, PartialEq, Eq)]
pub struct Permissions {
    pub storage: Option<PermissionList<StoragePermission>>,
    pub network: Option<PermissionList<NetworkPermission>>,
    pub environment: Option<EnvironmentPermissions>,
    pub runtime: Option<Runtime>,
    pub resources: Option<PermissionList<ResourcePermission>>,
    pub ipc: Option<PermissionList<ResourcePermission>>,
}

impl Default for Permissions {
    fn default() -> (p: Permissions)
        ensures
            p.storage is None,
            p.network is None,
            p.environment is None,
            p.runtime is None,
            p.resources is None,
            p.ipc is None,
    {
        Permissions {
            storage: None,
            network: None,
            environment: None,
            runtime: None,
            resources: None,
            ipc: None,
        }
    }
}

/// A policy document.
#[derive(Clone, Debug, PartialEq, Eq)]
pub struct PolicyDocument {
    pub version: String,
    pub description: Option<String>,
    pub permissions: Permissions,
}

} // verus!
