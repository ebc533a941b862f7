//! Consistency of allow and deny lists: an entry that is both allowed and
//! denied, letter for letter, makes a list contradictory.

use vstd::prelude::*;
use crate::error::{ValidationError, Violation};
use crate::model::{
    AccessType, NetworkPermission, PermissionList, ResourcePermission, StoragePermission,
};
use crate::text::str_equal;
use crate::validate::{entries, outcome};

verus! {

/// Two access lists name the same kinds of access, in whatever order and
/// however often.
pub open spec fn same_access(a: Seq<AccessType>, b: Seq<AccessType>) -> bool {
    forall|t: AccessType| a.contains(t) == b.contains(t)
}

/// Whether `t` occurs in the list.
pub fn has_access(list: &Vec<AccessType>, t: AccessType) -> (found: bool)
    ensures
        found == list@.contains(t),
{
    let mut i: usize = 0;
    while i < list.len()
        invariant
            i <= list.len(),
            forall|j: int| 0 <= j < i ==> list@[j] != t,
        decreases list.len() - i,
    {
        if list[i] == t {
            return true;
        }
        i += 1;
    }
    false
}

/// Decides whether two access lists name the same kinds of access.
pub fn access_sets_equal(a: &Vec<AccessType>, b: &Vec<AccessType>) -> (same: bool)
    ensures
        same == same_access(a@, b@),
{
    let same: bool = has_access(a, AccessType::Read) == has_access(b, AccessType::Read)
        && has_access(a, AccessType::Write) == has_access(b, AccessType::Write) && has_access(
        a,
        AccessType::Execute,
    ) == has_access(b, AccessType::Execute) && has_access(a, AccessType::Delete) == has_access(
        b,
        AccessType::Delete,
    );
    proof {
        if same {
            assert forall|t: AccessType| a@.contains(t) == b@.contains(t) by {
                match t {
                    AccessType::Read => {},
                    AccessType::Write => {},
                    AccessType::Execute => {},
                    AccessType::Delete => {},
                }
            }
        }
    }
    same
}

// ---------------------------------------------------------------- storage

/// Two storage entries are the same: same locator, same access set.
pub open spec fn same_storage_entry(a: StoragePermission, b: StoragePermission) -> bool {
    a.uri@ == b.uri@ && same_access(a.access@, b.access@)
}

/// `a` occurs in the deny list.
pub open spec fn storage_entry_denied(a: StoragePermission, deny: Seq<StoragePermission>) -> bool {
    exists|j: int| 0 <= j < deny.len() && same_storage_entry(a, #[trigger] deny[j])
}

/// The first allowed storage entry at or after `from` that is also denied.
pub open spec fn storage_contradiction_from(
    allow: Seq<StoragePermission>,
    deny: Seq<StoragePermission>,
    from: int,
) -> Option<Violation>
    decreases allow.len() - from,
{
    if from < 0 || from >= allow.len() {
        None
    } else if storage_entry_denied(allow[from], deny) {
        Some(Violation::ContradictoryPermission(allow[from].uri@))
    } else {
        storage_contradiction_from(allow, deny, from + 1)
    }
}

/// The first storage entry that is both allowed and denied.
pub open spec fn storage_contradiction(s: Option<PermissionList<StoragePermission>>) -> Option<
    Violation,
> {
    match s {
        None => None,
        Some(l) => storage_contradiction_from(entries(l.allow), entries(l.deny), 0),
    }
}

/// Decides whether two storage entries are the same.
pub fn storage_entries_equal(a: &StoragePermission, b: &StoragePermission) -> (same: bool)
    ensures
        same == same_storage_entry(*a, *b),
{
    str_equal(a.uri.as_str(), b.uri.as_str()) && access_sets_equal(&a.access, &b.access)
}

/// Decides whether `a` occurs in the deny list.
fn storage_denied(a: &StoragePermission, deny: &Vec<StoragePermission>) -> (found: bool)
    ensures
        found == storage_entry_denied(*a, deny@),
{
    let mut j: usize = 0;
    while j < deny.len()
        invariant
            j <= deny.len(),
            forall|k: int| 0 <= k < j ==> !same_storage_entry(*a, #[trigger] deny@[k]),
        decreases deny.len() - j,
    {
        if storage_entries_equal(a, &deny[j]) {
            return true;
        }
        j += 1;
    }
    false
}

/// Looks for the first allowed storage entry that is also denied.
#[verifier::loop_isolation(false)]
pub fn check_storage_consistency(s: &Option<PermissionList<StoragePermission>>) -> (r: Result<
    (),
    ValidationError,
>)
    ensures
        outcome(r) == storage_contradiction(*s),
{
    match s {
        Some(PermissionList { allow: Some(allow), deny: Some(deny) }) => {
            let mut i: usize = 0;
            while i < allow.len()
                invariant
                    i <= allow.len(),
                    storage_contradiction_from(allow@, deny@, 0) == storage_contradiction_from(
                        allow@,
                        deny@,
                        i as int,
                    ),
                decreases allow.len() - i,
            {
                if storage_denied(&allow[i], deny) {
                    return Err(ValidationError::ContradictoryPermission(allow[i].uri.clone()));
                }
                i += 1;
            }
            Ok(())
        },
        Some(PermissionList { allow: Some(allow), deny: None }) => {
            proof {
                lemma_storage_nothing_denied(allow@, 0);
            }
            Ok(())
        },
        _ => Ok(()),
    }
}

/// Where nothing is denied, nothing is contradictory.
proof fn lemma_storage_nothing_denied(allow: Seq<StoragePermission>, from: int)
    ensures
        storage_contradiction_from(allow, Seq::empty(), from) is None,
    decreases allow.len() - from,
{
    if 0 <= from < allow.len() {
        lemma_storage_nothing_denied(allow, from + 1);
    }
}

// ---------------------------------------------------------------- network

/// The host name or block that a network entry holds, as written.
pub open spec fn network_entry_text(p: NetworkPermission) -> Seq<char> {
    match p {
        NetworkPermission::Host(h) => h.host@,
        NetworkPermission::Cidr(c) => c.cidr@,
    }
}

/// Two network entries are the same: same form, same text.
pub open spec fn same_network_entry(a: NetworkPermission, b: NetworkPermission) -> bool {
    match (a, b) {
        (NetworkPermission::Host(x), NetworkPermission::Host(y)) => x.host@ == y.host@,
        (NetworkPermission::Cidr(x), NetworkPermission::Cidr(y)) => x.cidr@ == y.cidr@,
        _ => false,
    }
}

/// `a` occurs in the deny list.
pub open spec fn network_entry_denied(a: NetworkPermission, deny: Seq<NetworkPermission>) -> bool {
    exists|j: int| 0 <= j < deny.len() && same_network_entry(a, #[trigger] deny[j])
}

/// The first allowed network entry at or after `from` that is also denied.
pub open spec fn network_contradiction_from(
    allow: Seq<NetworkPermission>,
    deny: Seq<NetworkPermission>,
    from: int,
) -> Option<Violation>
    decreases allow.len() - from,
{
    if from < 0 || from >= allow.len() {
        None
    } else if network_entry_denied(allow[from], deny) {
        Some(Violation::ContradictoryPermission(network_entry_text(allow[from])))
    } else {
        network_contradiction_from(allow, deny, from + 1)
    }
}

/// The first network entry that is both allowed and denied.
pub open spec fn network_contradiction(s: Option<PermissionList<NetworkPermission>>) -> Option<
    Violation,
> {
    match s {
        None => None,
        Some(l) => network_contradiction_from(entries(l.allow), entries(l.deny), 0),
    }
}

/// Decides whether two network entries are the same.
pub fn network_entries_equal(a: &NetworkPermission, b: &NetworkPermission) -> (same: bool)
    ensures
        same == same_network_entry(*a, *b),
{
    match (a, b) {
        (NetworkPermission::Host(x), NetworkPermission::Host(y)) => str_equal(
            x.host.as_str(),
            y.host.as_str(),
        ),
        (NetworkPermission::Cidr(x), NetworkPermission::Cidr(y)) => str_equal(
            x.cidr.as_str(),
            y.cidr.as_str(),
        ),
        _ => false,
    }
}

/// A copy of the host name or block of an entry.
fn network_text(p: &NetworkPermission) -> (text: String)
    ensures
        text@ == network_entry_text(*p),
{
    match p {
        NetworkPermission::Host(h) => h.host.clone(),
        NetworkPermission::Cidr(c) => c.cidr.clone(),
    }
}

/// Decides whether `a` occurs in the deny list.
fn network_denied(a: &NetworkPermission, deny: &Vec<NetworkPermission>) -> (found: bool)
    ensures
        found == network_entry_denied(*a, deny@),
{
    let mut j: usize = 0;
    while j < deny.len()
        invariant
            j <= deny.len(),
            forall|k: int| 0 <= k < j ==> !same_network_entry(*a, #[trigger] deny@[k]),
        decreases deny.len() - j,
    {
        if network_entries_equal(a, &deny[j]) {
            return true;
        }
        j += 1;
    }
    false
}

/// Looks for the first allowed network entry that is also denied.
#[verifier::loop_isolation(false)]
pub fn check_network_consistency(s: &Option<PermissionList<NetworkPermission>>) -> (r: Result<
    (),
    ValidationError,
>)
    ensures
        outcome(r) == network_contradiction(*s),
{
    match s {
        Some(PermissionList { allow: Some(allow), deny: Some(deny) }) => {
            let mut i: usize = 0;
            while i < allow.len()
                invariant
                    i <= allow.len(),
                    network_contradiction_from(allow@, deny@, 0) == network_contradiction_from(
                        allow@,
                        deny@,
                        i as int,
                    ),
                decreases allow.len() - i,
            {
                if network_denied(&allow[i], deny) {
                    return Err(ValidationError::ContradictoryPermission(network_text(&allow[i])));
                }
                i += 1;
            }
            Ok(())
        },
        Some(PermissionList { allow: Some(allow), deny: None }) => {
            proof {
                lemma_network_nothing_denied(allow@, 0);
            }
            Ok(())
        },
        _ => Ok(()),
    }
}

/// Where nothing is denied, nothing is contradictory.
proof fn lemma_network_nothing_denied(allow: Seq<NetworkPermission>, from: int)
    ensures
        network_contradiction_from(allow, Seq::empty(), from) is None,
    decreases allow.len() - from,
{
    if 0 <= from < allow.len() {
        lemma_network_nothing_denied(allow, from + 1);
    }
}

// ------------------------------------------------------ resources and IPC

/// `a` occurs in the deny list, under the same identifier.
pub open spec fn resource_entry_denied(
    a: ResourcePermission,
    deny: Seq<ResourcePermission>,
) -> bool {
    exists|j: int| 0 <= j < deny.len() && a.id@ == (#[trigger] deny[j]).id@
}

/// The first allowed identifier at or after `from` that is also denied.
pub open spec fn resource_contradiction_from(
    allow: Seq<ResourcePermission>,
    deny: Seq<ResourcePermission>,
    from: int,
) -> Option<Violation>
    decreases allow.len() - from,
{
    if from < 0 || from >= allow.len() {
        None
    } else if resource_entry_denied(allow[from], deny) {
        Some(Violation::ContradictoryPermission(allow[from].id@))
    } else {
        resource_contradiction_from(allow, deny, from + 1)
    }
}

/// The first identifier that is both allowed and denied.
pub open spec fn resource_contradiction(s: Option<PermissionList<ResourcePermission>>) -> Option<
    Violation,
> {
    match s {
        None => None,
        Some(l) => resource_contradiction_from(entries(l.allow), entries(l.deny), 0),
    }
}

/// Decides whether the identifier of `a` occurs in the deny list.
fn resource_denied(a: &ResourcePermission, deny: &Vec<ResourcePermission>) -> (found: bool)
    ensures
        found == resource_entry_denied(*a, deny@),
{
    let mut j: usize = 0;
    while j < deny.len()
        invariant
            j <= deny.len(),
            forall|k: int| 0 <= k < j ==> a.id@ != (#[trigger] deny@[k]).id@,
        decreases deny.len() - j,
    {
        if str_equal(a.id.as_str(), deny[j].id.as_str()) {
            return true;
        }
        j += 1;
    }
    false
}

/// Looks for the first allowed identifier that is also denied.
#[verifier::loop_isolation(false)]
pub fn check_resource_consistency(s: &Option<PermissionList<ResourcePermission>>) -> (r: Result<
    (),
    ValidationError,
>)
    ensures
        outcome(r) == resource_contradiction(*s),
{
    match s {
        Some(PermissionList { allow: Some(allow), deny: Some(deny) }) => {
            let mut i: usize = 0;
            while i < allow.len()
                invariant
                    i <= allow.len(),
                    resource_contradiction_from(allow@, deny@, 0) == resource_contradiction_from(
                        allow@,
                        deny@,
                        i as int,
                    ),
                decreases allow.len() - i,
            {
                if resource_denied(&allow[i], deny) {
                    return Err(ValidationError::ContradictoryPermission(allow[i].id.clone()));
                }
                i += 1;
            }
            Ok(())
        },
        Some(PermissionList { allow: Some(allow), deny: None }) => {
            proof {
                lemma_resource_nothing_denied(allow@, 0);
            }
            Ok(())
        },
        _ => Ok(()),
    }
}

/// Where nothing is denied, nothing is contradictory.
proof fn lemma_resource_nothing_denied(allow: Seq<ResourcePermission>, from: int)
    ensures
        resource_contradiction_from(allow, Seq::empty(), from) is None,
    decreases allow.len() - from,
{
    if 0 <= from < allow.len() {
        lemma_resource_nothing_denied(allow, from + 1);
    }
}

// ------------------------------------------------------- repeated entries

/// The storage entry at `j` repeats an earlier entry of its list.
pub open spec fn storage_entry_repeated(list: Seq<StoragePermission>, j: int) -> bool {
    exists|i: int| 0 <= i < j && same_storage_entry(#[trigger] list[i], list[j])
}

/// The position of the first storage entry that repeats an earlier one.
/// Repeated entries are no violation; a caller may warn of them.
#[verifier::loop_isolation(false)]
pub fn first_repeated_storage_entry(list: &Vec<StoragePermission>) -> (r: Option<usize>)
    ensures
        match r {
            Some(j) => {
                &&& j < list.len()
                &&& storage_entry_repeated(list@, j as int)
                &&& forall|k: int| 0 <= k < j ==> !storage_entry_repeated(list@, k)
            },
            None => forall|k: int| 0 <= k < list.len() ==> !storage_entry_repeated(list@, k),
        },
{
    let mut j: usize = 0;
    while j < list.len()
        invariant
            j <= list.len(),
            forall|k: int| 0 <= k < j ==> !storage_entry_repeated(list@, k),
        decreases list.len() - j,
    {
        let mut i: usize = 0;
        while i < j
            invariant
                i <= j < list.len(),
                forall|k: int| 0 <= k < i ==> !same_storage_entry(#[trigger] list@[k], list@[j as int]),
            decreases j - i,
        {
            if storage_entries_equal(&list[i], &list[j]) {
                return Some(j);
            }
            i += 1;
        }
        j += 1;
    }
    None
}

/// The network entry at `j` repeats an earlier entry of its list.
pub open spec fn network_entry_repeated(list: Seq<NetworkPermission>, j: int) -> bool {
    exists|i: int| 0 <= i < j && same_network_entry(#[trigger] list[i], list[j])
}

/// The position of the first network entry that repeats an earlier one.
/// Repeated entries are no violation; a caller may warn of them.
#[verifier::loop_isolation(false)]
pub fn first_repeated_network_entry(list: &Vec<NetworkPermission>) -> (r: Option<usize>)
    ensures
        match r {
            Some(j) => {
                &&& j < list.len()
                &&& network_entry_repeated(list@, j as int)
                &&& forall|k: int| 0 <= k < j ==> !network_entry_repeated(list@, k)
            },
            None => forall|k: int| 0 <= k < list.len() ==> !network_entry_repeated(list@, k),
        },
{
    let mut j: usize = 0;
    while j < list.len()
        invariant
            j <= list.len(),
            forall|k: int| 0 <= k < j ==> !network_entry_repeated(list@, k),
        decreases list.len() - j,
    {
        let mut i: usize = 0;
        while i < j
            invariant
                i <= j < list.len(),
                forall|k: int| 0 <= k < i ==> !same_network_entry(#[trigger] list@[k], list@[j as int]),
            decreases j - i,
        {
            if network_entries_equal(&list[i], &list[j]) {
                return Some(j);
            }
            i += 1;
        }
        j += 1;
    }
    None
}

} // verus!
