//! The validation rules. They are applied in a fixed order and the first
//! violation found is the one reported.

use vstd::prelude::*;
use crate::consistency::{
    check_network_consistency, check_resource_consistency, check_storage_consistency,
    network_contradiction, resource_contradiction, storage_contradiction,
};
use crate::error::{ValidationError, Violation};
use crate::model::{
    CapabilityAction, DockerCapabilities, EnvironmentPermission, EnvironmentPermissions,
    NetworkKind, NetworkPermission, PermissionList, Permissions, PolicyDocument, Runtime,
    StoragePermission,
};
use crate::text::{
    is_cidr, is_env_key, is_hostname, is_resource_uri, str_equal, valid_cidr, valid_env_key,
    valid_hostname, valid_resource_uri,
};

verus! {

/// The one schema version that is accepted.
pub open spec fn supported_version() -> Seq<char> {
    "1.0"@
}

/// What a check reports: nothing, or the violation it found.
pub open spec fn outcome(r: Result<(), ValidationError>) -> Option<Violation> {
    match r {
        Ok(_) => None,
        Err(e) => Some(e@),
    }
}

/// The first of two findings, in order.
pub open spec fn first_of(a: Option<Violation>, b: Option<Violation>) -> Option<Violation> {
    if a is Some {
        a
    } else {
        b
    }
}

/// The entries of an optional list; an absent list has none.
pub open spec fn entries<T>(list: Option<Vec<T>>) -> Seq<T> {
    match list {
        Some(v) => v@,
        None => Seq::empty(),
    }
}

// ---------------------------------------------------------------- storage

/// What is wrong with one storage entry: first its locator, then its
/// access set.
pub open spec fn storage_entry_violation(p: StoragePermission) -> Option<Violation> {
    if !is_resource_uri(p.uri@) {
        Some(Violation::InvalidStorageUri(p.uri@))
    } else if p.access@.len() == 0 {
        Some(Violation::EmptyAccessSet(p.uri@))
    } else {
        None
    }
}

/// The violation of the first storage entry at or after `from` that has one.
pub open spec fn storage_violation_from(list: Seq<StoragePermission>, from: int) -> Option<
    Violation,
>
    decreases list.len() - from,
{
    if from < 0 || from >= list.len() {
        None
    } else {
        first_of(storage_entry_violation(list[from]), storage_violation_from(list, from + 1))
    }
}

/// Storage rules over the allow list, then the deny list.
pub open spec fn storage_violation(s: Option<PermissionList<StoragePermission>>) -> Option<
    Violation,
> {
    match s {
        None => None,
        Some(l) => first_of(
            storage_violation_from(entries(l.allow), 0),
            storage_violation_from(entries(l.deny), 0),
        ),
    }
}

/// Applies the storage rules to one entry.
pub fn check_storage_entry(p: &StoragePermission) -> (r: Result<(), ValidationError>)
    ensures
        outcome(r) == storage_entry_violation(*p),
{
    if !valid_resource_uri(p.uri.as_str()) {
        Err(ValidationError::InvalidStorageUri(p.uri.clone()))
    } else if p.access.len() == 0 {
        Err(ValidationError::EmptyAccessSet(p.uri.clone()))
    } else {
        Ok(())
    }
}

/// Applies the storage rules to the entries of one list, in order.
#[verifier::loop_isolation(false)]
fn check_storage_entries(list: &Option<Vec<StoragePermission>>) -> (r: Result<
    (),
    ValidationError,
>)
    ensures
        outcome(r) == storage_violation_from(entries(*list), 0),
{
    match list {
        None => Ok(()),
        Some(v) => {
            let mut i: usize = 0;
            while i < v.len()
                invariant
                    i <= v.len(),
                    storage_violation_from(v@, 0) == storage_violation_from(v@, i as int),
                decreases v.len() - i,
            {
                match check_storage_entry(&v[i]) {
                    Err(e) => {
                        return Err(e);
                    },
                    Ok(_) => {},
                }
                i += 1;
            }
            Ok(())
        },
    }
}

/// Applies the storage rules to every entry, the allowed ones first.
pub fn check_storage(s: &Option<PermissionList<StoragePermission>>) -> (r: Result<
    (),
    ValidationError,
>)
    ensures
        outcome(r) == storage_violation(*s),
{
    match s {
        None => Ok(()),
        Some(l) => {
            match check_storage_entries(&l.allow) {
                Err(e) => Err(e),
                Ok(_) => check_storage_entries(&l.deny),
            }
        },
    }
}

// ---------------------------------------------------------------- network

/// What is wrong with one network entry: a host must be a host name, a
/// block must be in CIDR notation.
pub open spec fn network_entry_violation(p: NetworkPermission) -> Option<Violation> {
    match p {
        NetworkPermission::Host(h) => if is_hostname(h.host@) {
            None
        } else {
            Some(Violation::InvalidNetworkEntry(h.host@, NetworkKind::Host))
        },
        NetworkPermission::Cidr(c) => if is_cidr(c.cidr@) {
            None
        } else {
            Some(Violation::InvalidNetworkEntry(c.cidr@, NetworkKind::Cidr))
        },
    }
}

/// The violation of the first network entry at or after `from` that has one.
pub open spec fn network_violation_from(list: Seq<NetworkPermission>, from: int) -> Option<
    Violation,
>
    decreases list.len() - from,
{
    if from < 0 || from >= list.len() {
        None
    } else {
        first_of(network_entry_violation(list[from]), network_violation_from(list, from + 1))
    }
}

/// Network rules over the allow list, then the deny list.
pub open spec fn network_violation(s: Option<PermissionList<NetworkPermission>>) -> Option<
    Violation,
> {
    match s {
        None => None,
        Some(l) => first_of(
            network_violation_from(entries(l.allow), 0),
            network_violation_from(entries(l.deny), 0),
        ),
    }
}

/// Applies the network rules to one entry.
pub fn check_network_entry(p: &NetworkPermission) -> (r: Result<(), ValidationError>)
    ensures
        outcome(r) == network_entry_violation(*p),
{
    match p {
        NetworkPermission::Host(h) => {
            if valid_hostname(h.host.as_str()) {
                Ok(())
            } else {
                Err(ValidationError::InvalidNetworkEntry(h.host.clone(), NetworkKind::Host))
            }
        },
        NetworkPermission::Cidr(c) => {
            if valid_cidr(c.cidr.as_str()) {
                Ok(())
            } else {
                Err(ValidationError::InvalidNetworkEntry(c.cidr.clone(), NetworkKind::Cidr))
            }
        },
    }
}

/// Applies the network rules to the entries of one list, in order.
#[verifier::loop_isolation(false)]
fn check_network_entries(list: &Option<Vec<NetworkPermission>>) -> (r: Result<
    (),
    ValidationError,
>)
    ensures
        outcome(r) == network_violation_from(entries(*list), 0),
{
    match list {
        None => Ok(()),
        Some(v) => {
            let mut i: usize = 0;
            while i < v.len()
                invariant
                    i <= v.len(),
                    network_violation_from(v@, 0) == network_violation_from(v@, i as int),
                decreases v.len() - i,
            {
                match check_network_entry(&v[i]) {
                    Err(e) => {
                        return Err(e);
                    },
                    Ok(_) => {},
                }
                i += 1;
            }
            Ok(())
        },
    }
}

/// Applies the network rules to every entry, the allowed ones first.
pub fn check_network(s: &Option<PermissionList<NetworkPermission>>) -> (r: Result<
    (),
    ValidationError,
>)
    ensures
        outcome(r) == network_violation(*s),
{
    match s {
        None => Ok(()),
        Some(l) => {
            match check_network_entries(&l.allow) {
                Err(e) => Err(e),
                Ok(_) => check_network_entries(&l.deny),
            }
        },
    }
}

// ------------------------------------------------------------ environment

/// The violation of the first environment entry at or after `from` whose
/// key is no variable name.
pub open spec fn environment_violation_from(list: Seq<EnvironmentPermission>, from: int) -> Option<
    Violation,
>
    decreases list.len() - from,
{
    if from < 0 || from >= list.len() {
        None
    } else if !is_env_key(list[from].key@) {
        Some(Violation::InvalidEnvironmentKey(list[from].key@))
    } else {
        environment_violation_from(list, from + 1)
    }
}

/// Environment rules over the allow list.
pub open spec fn environment_violation(e: Option<EnvironmentPermissions>) -> Option<Violation> {
    match e {
        None => None,
        Some(p) => environment_violation_from(entries(p.allow), 0),
    }
}

/// Applies the environment rules to every allowed key, in order.
#[verifier::loop_isolation(false)]
pub fn check_environment(e: &Option<EnvironmentPermissions>) -> (r: Result<(), ValidationError>)
    ensures
        outcome(r) == environment_violation(*e),
{
    match e {
        None => Ok(()),
        Some(p) => match &p.allow {
            None => Ok(()),
            Some(v) => {
                let mut i: usize = 0;
                while i < v.len()
                    invariant
                        i <= v.len(),
                        environment_violation_from(v@, 0) == environment_violation_from(
                            v@,
                            i as int,
                        ),
                    decreases v.len() - i,
                {
                    if !valid_env_key(v[i].key.as_str()) {
                        return Err(ValidationError::InvalidEnvironmentKey(v[i].key.clone()));
                    }
                    i += 1;
                }
                Ok(())
            },
        },
    }
}

// ----------------------------------------------------------- capabilities

/// The first dropped capability at or after `from` that is also added. The
/// wildcard is a capability like any other here: it conflicts only with
/// itself.
pub open spec fn capability_conflict_from(
    dropped: Seq<CapabilityAction>,
    added: Seq<CapabilityAction>,
    from: int,
) -> Option<Violation>
    decreases dropped.len() - from,
{
    if from < 0 || from >= dropped.len() {
        None
    } else if added.contains(dropped[from]) {
        Some(Violation::ConflictingCapability(dropped[from]))
    } else {
        capability_conflict_from(dropped, added, from + 1)
    }
}

/// The capabilities of the Docker sub-policy, where every level down to
/// them is present.
pub open spec fn docker_capabilities(r: Option<Runtime>) -> Option<DockerCapabilities> {
    match r {
        Some(Runtime { docker: Some(d), .. }) => match d.security {
            Some(s) => s.capabilities,
            None => None,
        },
        _ => None,
    }
}

/// Docker security rules: no capability is both dropped and added.
pub open spec fn docker_violation(r: Option<Runtime>) -> Option<Violation> {
    match docker_capabilities(r) {
        None => None,
        Some(c) => capability_conflict_from(entries(c.drop), entries(c.add), 0),
    }
}

/// Whether `c` occurs in the list.
pub fn has_capability(list: &Vec<CapabilityAction>, c: CapabilityAction) -> (found: bool)
    ensures
        found == list@.contains(c),
{
    let mut i: usize = 0;
    while i < list.len()
        invariant
            i <= list.len(),
            forall|j: int| 0 <= j < i ==> list@[j] != c,
        decreases list.len() - i,
    {
        if list[i] == c {
            return true;
        }
        i += 1;
    }
    false
}

/// Looks for the first dropped capability that is also added.
#[verifier::loop_isolation(false)]
pub fn check_capabilities(c: &DockerCapabilities) -> (r: Result<(), ValidationError>)
    ensures
        outcome(r) == capability_conflict_from(entries(c.drop), entries(c.add), 0),
{
    match (&c.drop, &c.add) {
        (Some(dropped), Some(added)) => {
            let mut i: usize = 0;
            while i < dropped.len()
                invariant
                    i <= dropped.len(),
                    capability_conflict_from(dropped@, added@, 0) == capability_conflict_from(
                        dropped@,
                        added@,
                        i as int,
                    ),
                decreases dropped.len() - i,
            {
                if has_capability(added, dropped[i]) {
                    return Err(ValidationError::ConflictingCapability(dropped[i]));
                }
                i += 1;
            }
            Ok(())
        },
        (Some(dropped), None) => {
            proof {
                lemma_no_conflict_with_nothing(dropped@, 0);
            }
            Ok(())
        },
        (None, _) => Ok(()),
    }
}

/// Where nothing is added, nothing conflicts.
proof fn lemma_no_conflict_with_nothing(dropped: Seq<CapabilityAction>, from: int)
    ensures
        capability_conflict_from(dropped, Seq::empty(), from) is None,
    decreases dropped.len() - from,
{
    if 0 <= from < dropped.len() {
        lemma_no_conflict_with_nothing(dropped, from + 1);
    }
}

/// Applies the Docker security rules, where the sub-policy declares capabilities.
pub fn check_docker(r: &Option<Runtime>) -> (res: Result<(), ValidationError>)
    ensures
        outcome(res) == docker_violation(*r),
{
    match r {
        None => Ok(()),
        Some(runtime) => match &runtime.docker {
            None => Ok(()),
            Some(d) => match &d.security {
                None => Ok(()),
                Some(s) => match &s.capabilities {
                    None => Ok(()),
                    Some(c) => check_capabilities(c),
                },
            },
        },
    }
}

// ----------------------------------------------------------- the document

/// The first violation of a document, by the fixed order of the rules:
/// version, storage, network, environment, Docker security, and then the
/// consistency of the storage, network, resource and IPC lists. `None` for
/// a document that breaks no rule.
pub open spec fn first_violation(doc: PolicyDocument) -> Option<Violation> {
    if doc.version@ != supported_version() {
        Some(Violation::UnsupportedVersion(doc.version@))
    } else {
        let p = doc.permissions;
        first_of(
            storage_violation(p.storage),
            first_of(
                network_violation(p.network),
                first_of(
                    environment_violation(p.environment),
                    first_of(
                        docker_violation(p.runtime),
                        first_of(
                            storage_contradiction(p.storage),
                            first_of(
                                network_contradiction(p.network),
                                first_of(
                                    resource_contradiction(p.resources),
                                    resource_contradiction(p.ipc),
                                ),
                            ),
                        ),
                    ),
                ),
            ),
        )
    }
}

/// The document breaks no rule.
pub open spec fn is_valid(doc: PolicyDocument) -> bool {
    first_violation(doc) is None
}

impl PolicyDocument {
    /// Decides whether the document is well-formed. Reports the first
    /// violation in the fixed order of the rules, and no other.
    pub fn validate(&self) -> (r: Result<(), ValidationError>)
        ensures
            outcome(r) == first_violation(*self),
    {
        if !str_equal(self.version.as_str(), "1.0") {
            return Err(ValidationError::UnsupportedVersion(self.version.clone()));
        }
        let p: &Permissions = &self.permissions;
        match check_storage(&p.storage) {
            Err(e) => {
                return Err(e);
            },
            Ok(_) => {},
        }
        match check_network(&p.network) {
            Err(e) => {
                return Err(e);
            },
            Ok(_) => {},
        }
        match check_environment(&p.environment) {
            Err(e) => {
                return Err(e);
            },
            Ok(_) => {},
        }
        match check_docker(&p.runtime) {
            Err(e) => {
                return Err(e);
            },
            Ok(_) => {},
        }
        match check_storage_consistency(&p.storage) {
            Err(e) => {
                return Err(e);
            },
            Ok(_) => {},
        }
        match check_network_consistency(&p.network) {
            Err(e) => {
                return Err(e);
            },
            Ok(_) => {},
        }
        match check_resource_consistency(&p.resources) {
            Err(e) => {
                return Err(e);
            },
            Ok(_) => {},
        }
        check_resource_consistency(&p.ipc)
    }
}

} // verus!
