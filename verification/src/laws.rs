//! What holds of validation and of reading, for every document.

use vstd::prelude::*;
use crate::codec::{same_items, same_opt, YamlCodec};
use crate::consistency::{
    network_contradiction, network_contradiction_from, network_entry_denied,
    resource_contradiction, resource_contradiction_from, resource_entry_denied,
    same_network_entry, same_storage_entry, storage_contradiction, storage_contradiction_from,
    storage_entry_denied,
};
use crate::error::Violation;
use crate::model::{
    AccessType, CapabilityAction, DockerCapabilities, DockerRuntime, DockerSecurity,
    EnvironmentPermission, EnvironmentPermissions, NetworkPermission, PermissionList,
    Permissions, PolicyDocument, ResourcePermission, Runtime, StoragePermission,
};
use crate::parser::{tree_outcome, PolicyError, PolicyResult};
use crate::text::{is_env_key, is_resource_uri};
use crate::validate::{
    capability_conflict_from, docker_capabilities, docker_violation, entries,
    environment_violation, environment_violation_from, first_violation, is_valid,
    network_entry_violation,
    network_violation, network_violation_from, storage_entry_violation, storage_violation,
    storage_violation_from, supported_version,
};
use crate::yaml::YamlNode;

verus! {

/// A document whose version is not the supported one is rejected for its
/// version, however well-formed the rest is.
pub proof fn law_version_gate(doc: PolicyDocument)
    requires
        doc.version@ != supported_version(),
    ensures
        first_violation(doc) == Some(Violation::UnsupportedVersion(doc.version@)),
{
}

/// Reading a tree that stands for a document with another version than
/// the supported one fails, and it fails with that version as the reason.
pub proof fn law_version_gate_on_read(
    tree: YamlNode,
    doc: PolicyDocument,
    r: PolicyResult<PolicyDocument>,
)
    requires
        PolicyDocument::decodes(tree, doc),
        doc.version@ != supported_version(),
        tree_outcome(tree, r),
    ensures
        r matches Err(PolicyError::Validation(e)) && e@ == Violation::UnsupportedVersion(
            doc.version@,
        ),
{
    match r {
        Ok(d) => {
            assert(d.version@ == doc.version@);
        },
        Err(PolicyError::Validation(e)) => {
            let d = choose|d: PolicyDocument|
                PolicyDocument::decodes(tree, d) && first_violation(d) == Some(e@);
            assert(d.version@ == doc.version@);
        },
        _ => {},
    }
}

/// Of a document that breaks both a storage rule and a network rule, only
/// the storage violation is reported.
pub proof fn law_storage_before_network(doc: PolicyDocument)
    requires
        doc.version@ == supported_version(),
        storage_violation(doc.permissions.storage) is Some,
        network_violation(doc.permissions.network) is Some,
    ensures
        first_violation(doc) == storage_violation(doc.permissions.storage),
{
}

/// No storage entry from `from` on has a violation exactly when the search
/// from there finds none.
pub proof fn lemma_storage_clean(list: Seq<StoragePermission>, from: int)
    requires
        0 <= from,
    ensures
        storage_violation_from(list, from) is None <==> forall|i: int|
            from <= i < list.len() ==> storage_entry_violation(#[trigger] list[i]) is None,
    decreases list.len() - from,
{
    if from < list.len() {
        lemma_storage_clean(list, from + 1);
    }
}

/// A storage entry without any kind of access makes its document invalid,
/// whether its locator is well-formed or not, and wherever it stands.
pub proof fn law_empty_access_rejected(doc: PolicyDocument, in_deny: bool, k: int)
    requires
        doc.permissions.storage is Some,
        ({
            let l = doc.permissions.storage->Some_0;
            let list = if in_deny {
                entries(l.deny)
            } else {
                entries(l.allow)
            };
            0 <= k < list.len() && list[k].access@.len() == 0
        }),
    ensures
        first_violation(doc) is Some,
{
    let l = doc.permissions.storage->Some_0;
    lemma_storage_clean(entries(l.allow), 0);
    lemma_storage_clean(entries(l.deny), 0);
    if in_deny {
        assert(storage_entry_violation(entries(l.deny)[k]) is Some);
    } else {
        assert(storage_entry_violation(entries(l.allow)[k]) is Some);
    }
}

/// No network entry from `from` on has a violation exactly when the search
/// from there finds none.
pub proof fn lemma_network_clean(list: Seq<NetworkPermission>, from: int)
    requires
        0 <= from,
    ensures
        network_violation_from(list, from) is None <==> forall|i: int|
            from <= i < list.len() ==> network_entry_violation(#[trigger] list[i]) is None,
    decreases list.len() - from,
{
    if from < list.len() {
        lemma_network_clean(list, from + 1);
    }
}

/// Every key from `from` on is a variable name exactly when the search from
/// there finds no violation.
pub proof fn lemma_environment_clean(list: Seq<EnvironmentPermission>, from: int)
    requires
        0 <= from,
    ensures
        environment_violation_from(list, from) is None <==> forall|i: int|
            from <= i < list.len() ==> is_env_key((#[trigger] list[i]).key@),
    decreases list.len() - from,
{
    if from < list.len() {
        lemma_environment_clean(list, from + 1);
    }
}

/// No capability dropped from `from` on is added exactly when the search
/// from there finds no conflict.
pub proof fn lemma_capabilities_clean(
    dropped: Seq<CapabilityAction>,
    added: Seq<CapabilityAction>,
    from: int,
)
    requires
        0 <= from,
    ensures
        capability_conflict_from(dropped, added, from) is None <==> forall|i: int|
            from <= i < dropped.len() ==> !added.contains(#[trigger] dropped[i]),
    decreases dropped.len() - from,
{
    if from < dropped.len() {
        lemma_capabilities_clean(dropped, added, from + 1);
    }
}

/// No storage entry allowed from `from` on is denied exactly when the search
/// from there finds no contradiction.
pub proof fn lemma_storage_consistent(
    allow: Seq<StoragePermission>,
    deny: Seq<StoragePermission>,
    from: int,
)
    requires
        0 <= from,
    ensures
        storage_contradiction_from(allow, deny, from) is None <==> forall|i: int|
            from <= i < allow.len() ==> !storage_entry_denied(#[trigger] allow[i], deny),
    decreases allow.len() - from,
{
    if from < allow.len() {
        lemma_storage_consistent(allow, deny, from + 1);
    }
}

/// No network entry allowed from `from` on is denied exactly when the search
/// from there finds no contradiction.
pub proof fn lemma_network_consistent(
    allow: Seq<NetworkPermission>,
    deny: Seq<NetworkPermission>,
    from: int,
)
    requires
        0 <= from,
    ensures
        network_contradiction_from(allow, deny, from) is None <==> forall|i: int|
            from <= i < allow.len() ==> !network_entry_denied(#[trigger] allow[i], deny),
    decreases allow.len() - from,
{
    if from < allow.len() {
        lemma_network_consistent(allow, deny, from + 1);
    }
}

/// No identifier allowed from `from` on is denied exactly when the search
/// from there finds no contradiction.
pub proof fn lemma_resources_consistent(
    allow: Seq<ResourcePermission>,
    deny: Seq<ResourcePermission>,
    from: int,
)
    requires
        0 <= from,
    ensures
        resource_contradiction_from(allow, deny, from) is None <==> forall|i: int|
            from <= i < allow.len() ==> !resource_entry_denied(#[trigger] allow[i], deny),
    decreases allow.len() - from,
{
    if from < allow.len() {
        lemma_resources_consistent(allow, deny, from + 1);
    }
}

/// Dropping every capability and adding some back is no conflict: the
/// wildcard conflicts with nothing but itself.
pub proof fn law_wildcard_is_literal(added: Seq<CapabilityAction>)
    requires
        !added.contains(CapabilityAction::All),
    ensures
        capability_conflict_from(seq![CapabilityAction::All], added, 0) is None,
{
    lemma_capabilities_clean(seq![CapabilityAction::All], added, 0);
}

/// Every storage entry of both lists has a well-formed locator and at
/// least one kind of access.
pub open spec fn storage_well_formed(s: Option<PermissionList<StoragePermission>>) -> bool {
    s matches Some(l) ==> {
        &&& forall|i: int|
            0 <= i < entries(l.allow).len() ==> storage_entry_violation(
                #[trigger] entries(l.allow)[i],
            ) is None
        &&& forall|i: int|
            0 <= i < entries(l.deny).len() ==> storage_entry_violation(
                #[trigger] entries(l.deny)[i],
            ) is None
    }
}

/// Every network entry of both lists is a host name or a CIDR block, as
/// its form demands.
pub open spec fn network_well_formed(s: Option<PermissionList<NetworkPermission>>) -> bool {
    s matches Some(l) ==> {
        &&& forall|i: int|
            0 <= i < entries(l.allow).len() ==> network_entry_violation(
                #[trigger] entries(l.allow)[i],
            ) is None
        &&& forall|i: int|
            0 <= i < entries(l.deny).len() ==> network_entry_violation(
                #[trigger] entries(l.deny)[i],
            ) is None
    }
}

/// No entry of the allow list occurs in the deny list.
pub open spec fn storage_consistent(s: Option<PermissionList<StoragePermission>>) -> bool {
    s matches Some(l) ==> forall|i: int|
        0 <= i < entries(l.allow).len() ==> !storage_entry_denied(
            #[trigger] entries(l.allow)[i],
            entries(l.deny),
        )
}

/// No entry of the allow list occurs in the deny list.
pub open spec fn network_consistent(s: Option<PermissionList<NetworkPermission>>) -> bool {
    s matches Some(l) ==> forall|i: int|
        0 <= i < entries(l.allow).len() ==> !network_entry_denied(
            #[trigger] entries(l.allow)[i],
            entries(l.deny),
        )
}

/// No identifier of the allow list occurs in the deny list.
pub open spec fn resources_consistent(s: Option<PermissionList<ResourcePermission>>) -> bool {
    s matches Some(l) ==> forall|i: int|
        0 <= i < entries(l.allow).len() ==> !resource_entry_denied(
            #[trigger] entries(l.allow)[i],
            entries(l.deny),
        )
}

/// What the rules ask of a document, rule by rule and without regard to
/// order.
pub open spec fn well_formed(doc: PolicyDocument) -> bool {
    let p = doc.permissions;
    &&& doc.version@ == supported_version()
    &&& storage_well_formed(p.storage)
    &&& network_well_formed(p.network)
    &&& p.environment matches Some(e) ==> forall|i: int|
        0 <= i < entries(e.allow).len() ==> is_env_key((#[trigger] entries(e.allow)[i]).key@)
    &&& docker_capabilities(p.runtime) matches Some(c) ==> forall|i: int|
        0 <= i < entries(c.drop).len() ==> !entries(c.add).contains(#[trigger] entries(c.drop)[i])
    &&& storage_consistent(p.storage)
    &&& network_consistent(p.network)
    &&& resources_consistent(p.resources)
    &&& resources_consistent(p.ipc)
}

/// Validation accepts exactly the documents that meet every rule.
pub proof fn law_accepted_iff_well_formed(doc: PolicyDocument)
    ensures
        first_violation(doc) is None <==> well_formed(doc),
{
    let p = doc.permissions;
    if let Some(l) = p.storage {
        lemma_storage_clean(entries(l.allow), 0);
        lemma_storage_clean(entries(l.deny), 0);
        lemma_storage_consistent(entries(l.allow), entries(l.deny), 0);
    }
    if let Some(l) = p.network {
        lemma_network_clean(entries(l.allow), 0);
        lemma_network_clean(entries(l.deny), 0);
        lemma_network_consistent(entries(l.allow), entries(l.deny), 0);
    }
    if let Some(e) = p.environment {
        lemma_environment_clean(entries(e.allow), 0);
    }
    if let Some(c) = docker_capabilities(p.runtime) {
        lemma_capabilities_clean(entries(c.drop), entries(c.add), 0);
    }
    if let Some(l) = p.resources {
        lemma_resources_consistent(entries(l.allow), entries(l.deny), 0);
    }
    if let Some(l) = p.ipc {
        lemma_resources_consistent(entries(l.allow), entries(l.deny), 0);
    }
}

/// Access lists with the same content are equal.
pub proof fn lemma_same_access(a: Seq<AccessType>, b: Seq<AccessType>)
    requires
        same_items(a, b),
    ensures
        a == b,
{
    assert forall|i: int| 0 <= i < a.len() implies a[i] == b[i] by {
        assert(AccessType::same(a[i], b[i]));
    }
    assert(a =~= b);
}

/// Capability lists with the same content are equal.
pub proof fn lemma_same_capabilities(a: Seq<CapabilityAction>, b: Seq<CapabilityAction>)
    requires
        same_items(a, b),
    ensures
        a == b,
{
    assert forall|i: int| 0 <= i < a.len() implies a[i] == b[i] by {
        assert(CapabilityAction::same(a[i], b[i]));
    }
    assert(a =~= b);
}

/// The storage rules find the same in lists of the same content.
pub proof fn lemma_storage_rules_by_content(
    a: Seq<StoragePermission>,
    b: Seq<StoragePermission>,
    from: int,
)
    requires
        same_items(a, b),
        0 <= from,
    ensures
        storage_violation_from(a, from) == storage_violation_from(b, from),
    decreases a.len() - from,
{
    if from < a.len() {
        assert(StoragePermission::same(a[from], b[from]));
        lemma_storage_rules_by_content(a, b, from + 1);
    }
}

/// The network rules find the same in lists of the same content.
pub proof fn lemma_network_rules_by_content(
    a: Seq<NetworkPermission>,
    b: Seq<NetworkPermission>,
    from: int,
)
    requires
        same_items(a, b),
        0 <= from,
    ensures
        network_violation_from(a, from) == network_violation_from(b, from),
    decreases a.len() - from,
{
    if from < a.len() {
        assert(NetworkPermission::same(a[from], b[from]));
        lemma_network_rules_by_content(a, b, from + 1);
    }
}

/// The environment rules find the same in lists of the same content.
pub proof fn lemma_environment_rules_by_content(
    a: Seq<EnvironmentPermission>,
    b: Seq<EnvironmentPermission>,
    from: int,
)
    requires
        same_items(a, b),
        0 <= from,
    ensures
        environment_violation_from(a, from) == environment_violation_from(b, from),
    decreases a.len() - from,
{
    if from < a.len() {
        assert(EnvironmentPermission::same(a[from], b[from]));
        lemma_environment_rules_by_content(a, b, from + 1);
    }
}

/// Whether a storage entry is denied depends on content only.
pub proof fn lemma_storage_denied_by_content(
    x: StoragePermission,
    y: StoragePermission,
    dx: Seq<StoragePermission>,
    dy: Seq<StoragePermission>,
)
    requires
        StoragePermission::same(x, y),
        same_items(dx, dy),
    ensures
        storage_entry_denied(x, dx) == storage_entry_denied(y, dy),
{
    lemma_same_access(x.access@, y.access@);
    assert forall|j: int| 0 <= j < dx.len() implies same_storage_entry(x, dx[j])
        == same_storage_entry(y, dy[j]) by {
        assert(StoragePermission::same(dx[j], dy[j]));
        lemma_same_access(dx[j].access@, dy[j].access@);
    }
    if storage_entry_denied(x, dx) {
        let j = choose|j: int| 0 <= j < dx.len() && same_storage_entry(x, #[trigger] dx[j]);
        assert(same_storage_entry(y, dy[j]));
    }
    if storage_entry_denied(y, dy) {
        let j = choose|j: int| 0 <= j < dy.len() && same_storage_entry(y, #[trigger] dy[j]);
        assert(same_storage_entry(x, dx[j]));
    }
}

/// Storage lists of the same content have the same first contradiction.
pub proof fn lemma_storage_consistency_by_content(
    a: Seq<StoragePermission>,
    b: Seq<StoragePermission>,
    da: Seq<StoragePermission>,
    db: Seq<StoragePermission>,
    from: int,
)
    requires
        same_items(a, b),
        same_items(da, db),
        0 <= from,
    ensures
        storage_contradiction_from(a, da, from) == storage_contradiction_from(b, db, from),
    decreases a.len() - from,
{
    if from < a.len() {
        assert(StoragePermission::same(a[from], b[from]));
        lemma_storage_denied_by_content(a[from], b[from], da, db);
        lemma_storage_consistency_by_content(a, b, da, db, from + 1);
    }
}

/// Whether a network entry is denied depends on content only.
pub proof fn lemma_network_denied_by_content(
    x: NetworkPermission,
    y: NetworkPermission,
    dx: Seq<NetworkPermission>,
    dy: Seq<NetworkPermission>,
)
    requires
        NetworkPermission::same(x, y),
        same_items(dx, dy),
    ensures
        network_entry_denied(x, dx) == network_entry_denied(y, dy),
{
    assert forall|j: int| 0 <= j < dx.len() implies same_network_entry(x, dx[j])
        == same_network_entry(y, dy[j]) by {
        assert(NetworkPermission::same(dx[j], dy[j]));
    }
    if network_entry_denied(x, dx) {
        let j = choose|j: int| 0 <= j < dx.len() && same_network_entry(x, #[trigger] dx[j]);
        assert(same_network_entry(y, dy[j]));
    }
    if network_entry_denied(y, dy) {
        let j = choose|j: int| 0 <= j < dy.len() && same_network_entry(y, #[trigger] dy[j]);
        assert(same_network_entry(x, dx[j]));
    }
}

/// Network lists of the same content have the same first contradiction.
pub proof fn lemma_network_consistency_by_content(
    a: Seq<NetworkPermission>,
    b: Seq<NetworkPermission>,
    da: Seq<NetworkPermission>,
    db: Seq<NetworkPermission>,
    from: int,
)
    requires
        same_items(a, b),
        same_items(da, db),
        0 <= from,
    ensures
        network_contradiction_from(a, da, from) == network_contradiction_from(b, db, from),
    decreases a.len() - from,
{
    if from < a.len() {
        assert(NetworkPermission::same(a[from], b[from]));
        lemma_network_denied_by_content(a[from], b[from], da, db);
        lemma_network_consistency_by_content(a, b, da, db, from + 1);
    }
}

/// Whether an identifier is denied depends on content only.
pub proof fn lemma_resource_denied_by_content(
    x: ResourcePermission,
    y: ResourcePermission,
    dx: Seq<ResourcePermission>,
    dy: Seq<ResourcePermission>,
)
    requires
        ResourcePermission::same(x, y),
        same_items(dx, dy),
    ensures
        resource_entry_denied(x, dx) == resource_entry_denied(y, dy),
{
    assert forall|j: int| 0 <= j < dx.len() implies dx[j].id@ == dy[j].id@ by {
        assert(ResourcePermission::same(dx[j], dy[j]));
    }
    if resource_entry_denied(x, dx) {
        let j = choose|j: int| 0 <= j < dx.len() && x.id@ == (#[trigger] dx[j]).id@;
        assert(y.id@ == dy[j].id@);
    }
    if resource_entry_denied(y, dy) {
        let j = choose|j: int| 0 <= j < dy.len() && y.id@ == (#[trigger] dy[j]).id@;
        assert(x.id@ == dx[j].id@);
    }
}

/// Identifier lists of the same content have the same first contradiction.
pub proof fn lemma_resource_consistency_by_content(
    a: Seq<ResourcePermission>,
    b: Seq<ResourcePermission>,
    da: Seq<ResourcePermission>,
    db: Seq<ResourcePermission>,
    from: int,
)
    requires
        same_items(a, b),
        same_items(da, db),
        0 <= from,
    ensures
        resource_contradiction_from(a, da, from) == resource_contradiction_from(b, db, from),
    decreases a.len() - from,
{
    if from < a.len() {
        assert(ResourcePermission::same(a[from], b[from]));
        lemma_resource_denied_by_content(a[from], b[from], da, db);
        lemma_resource_consistency_by_content(a, b, da, db, from + 1);
    }
}

/// Resource or IPC categories of the same content have the same first contradiction.
pub proof fn lemma_resources_by_content(
    a: Option<PermissionList<ResourcePermission>>,
    b: Option<PermissionList<ResourcePermission>>,
)
    requires
        same_opt(a, b),
    ensures
        resource_contradiction(a) == resource_contradiction(b),
{
    if let Some(la) = a {
        let lb = b->Some_0;
        assert(PermissionList::<ResourcePermission>::same(la, lb));
        lemma_resource_consistency_by_content(
            entries(la.allow),
            entries(lb.allow),
            entries(la.deny),
            entries(lb.deny),
            0,
        );
    }
}

/// Validation looks at the content of a document only: two documents with
/// the same content have the same first violation, or none.
pub proof fn law_validation_by_content(a: PolicyDocument, b: PolicyDocument)
    requires
        PolicyDocument::same(a, b),
    ensures
        first_violation(a) == first_violation(b),
{
    let p = a.permissions;
    let q = b.permissions;
    assert(Permissions::same(p, q));
    if let Some(la) = p.storage {
        let lb = q.storage->Some_0;
        assert(PermissionList::<StoragePermission>::same(la, lb));
        lemma_storage_rules_by_content(entries(la.allow), entries(lb.allow), 0);
        lemma_storage_rules_by_content(entries(la.deny), entries(lb.deny), 0);
        lemma_storage_consistency_by_content(
            entries(la.allow),
            entries(lb.allow),
            entries(la.deny),
            entries(lb.deny),
            0,
        );
    }
    if let Some(la) = p.network {
        let lb = q.network->Some_0;
        assert(PermissionList::<NetworkPermission>::same(la, lb));
        lemma_network_rules_by_content(entries(la.allow), entries(lb.allow), 0);
        lemma_network_rules_by_content(entries(la.deny), entries(lb.deny), 0);
        lemma_network_consistency_by_content(
            entries(la.allow),
            entries(lb.allow),
            entries(la.deny),
            entries(lb.deny),
            0,
        );
    }
    if let Some(ea) = p.environment {
        let eb = q.environment->Some_0;
        assert(EnvironmentPermissions::same(ea, eb));
        lemma_environment_rules_by_content(entries(ea.allow), entries(eb.allow), 0);
    }
    lemma_docker_by_content(p.runtime, q.runtime);
    lemma_resources_by_content(p.resources, q.resources);
    lemma_resources_by_content(p.ipc, q.ipc);
}

/// Runtimes of the same content have the same capability conflict.
pub proof fn lemma_docker_by_content(a: Option<Runtime>, b: Option<Runtime>)
    requires
        same_opt(a, b),
    ensures
        docker_violation(a) == docker_violation(b),
{
    if let Some(ra) = a {
        let rb = b->Some_0;
        assert(Runtime::same(ra, rb));
        if let Some(da) = ra.docker {
            let db = rb.docker->Some_0;
            assert(DockerRuntime::same(da, db));
            if let Some(sa) = da.security {
                let sb = db.security->Some_0;
                assert(DockerSecurity::same(sa, sb));
                if let Some(ca) = sa.capabilities {
                    let cb = sb.capabilities->Some_0;
                    assert(DockerCapabilities::same(ca, cb));
                    lemma_same_capabilities(entries(ca.drop), entries(cb.drop));
                    lemma_same_capabilities(entries(ca.add), entries(cb.add));
                }
            }
        }
    }
}

/// Reading back the tree of a valid document gives a document with the
/// same content: neither a format error nor a violation can come of it.
pub proof fn law_round_trip(doc: PolicyDocument, tree: YamlNode, r: PolicyResult<PolicyDocument>)
    requires
        is_valid(doc),
        PolicyDocument::decodes(tree, doc),
        tree_outcome(tree, r),
    ensures
        r matches Ok(d) && PolicyDocument::same(d, doc),
{
    match r {
        Ok(d) => {
            PolicyDocument::lemma_one_value(tree, d, doc);
        },
        Err(PolicyError::Validation(e)) => {
            let d = choose|d: PolicyDocument|
                PolicyDocument::decodes(tree, d) && first_violation(d) == Some(e@);
            PolicyDocument::lemma_one_value(tree, d, doc);
            law_validation_by_content(d, doc);
        },
        _ => {},
    }
}

} // verus!
