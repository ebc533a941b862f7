//! What can be wrong with a policy: the rejection reasons of the validation
//! rules, and the failures of the codec around them.

use vstd::prelude::*;
use vstd::string::StringExecFns;
use crate::model::{CapabilityAction, NetworkKind};

verus! {

/// Why a document was rejected. Each reason carries the offending value as
/// it was written.
#[derive(Clone, Debug, PartialEq, Eq)]
pub enum ValidationError {
    /// The version is not the supported one.
    UnsupportedVersion(String),
    /// A storage entry's locator is not of the form `scheme://path`.
    InvalidStorageUri(String),
    /// A storage entry, named by its locator, lists no kind of access.
    EmptyAccessSet(String),
    /// A network entry is no host name, or no CIDR block.
    InvalidNetworkEntry(String, NetworkKind),
    /// An environment key is no variable name.
    InvalidEnvironmentKey(String),
    /// A capability is both dropped and added.
    ConflictingCapability(CapabilityAction),
    /// The same entry is both allowed and denied.
    ContradictoryPermission(String),
}

/// A rejection reason as a mathematical value.
pub enum Violation {
    UnsupportedVersion(Seq<char>),
    InvalidStorageUri(Seq<char>),
    EmptyAccessSet(Seq<char>),
    InvalidNetworkEntry(Seq<char>, NetworkKind),
    InvalidEnvironmentKey(Seq<char>),
    ConflictingCapability(CapabilityAction),
    ContradictoryPermission(Seq<char>),
}

impl View for ValidationError {
    type V = Violation;

    open spec fn view(&self) -> Violation {
        match self {
            ValidationError::UnsupportedVersion(v) => Violation::UnsupportedVersion(v@),
            ValidationError::InvalidStorageUri(u) => Violation::InvalidStorageUri(u@),
            ValidationError::EmptyAccessSet(u) => Violation::EmptyAccessSet(u@),
            ValidationError::InvalidNetworkEntry(e, k) => Violation::InvalidNetworkEntry(e@, *k),
            ValidationError::InvalidEnvironmentKey(k) => Violation::InvalidEnvironmentKey(k@),
            ValidationError::ConflictingCapability(c) => Violation::ConflictingCapability(*c),
            ValidationError::ContradictoryPermission(e) => Violation::ContradictoryPermission(e@),
        }
    }
}

/// The name under which a capability is written.
pub open spec fn capability_text(c: CapabilityAction) -> Seq<char> {
    match c {
        CapabilityAction::All => "ALL"@,
        CapabilityAction::AuditWrite => "AUDIT_WRITE"@,
        CapabilityAction::Chown => "CHOWN"@,
        CapabilityAction::DacOverride => "DAC_OVERRIDE"@,
        CapabilityAction::Fowner => "FOWNER"@,
        CapabilityAction::Fsetid => "FSETID"@,
        CapabilityAction::Kill => "KILL"@,
        CapabilityAction::Mknod => "MKNOD"@,
        CapabilityAction::NetAdmin => "NET_ADMIN"@,
        CapabilityAction::NetBindService => "NET_BIND_SERVICE"@,
        CapabilityAction::NetRaw => "NET_RAW"@,
        CapabilityAction::Setfcap => "SETFCAP"@,
        CapabilityAction::Setgid => "SETGID"@,
        CapabilityAction::Setpcap => "SETPCAP"@,
        CapabilityAction::Setuid => "SETUID"@,
        CapabilityAction::SysAdmin => "SYS_ADMIN"@,
        CapabilityAction::SysChroot => "SYS_CHROOT"@,
        CapabilityAction::SysPtrace => "SYS_PTRACE"@,
        CapabilityAction::SysTime => "SYS_TIME"@,
    }
}

/// The name under which a capability is written.
pub fn capability_name(c: CapabilityAction) -> (name: &'static str)
    ensures
        name@ == capability_text(c),
{
    match c {
        CapabilityAction::All => "ALL",
        CapabilityAction::AuditWrite => "AUDIT_WRITE",
        CapabilityAction::Chown => "CHOWN",
        CapabilityAction::DacOverride => "DAC_OVERRIDE",
        CapabilityAction::Fowner => "FOWNER",
        CapabilityAction::Fsetid => "FSETID",
        CapabilityAction::Kill => "KILL",
        CapabilityAction::Mknod => "MKNOD",
        CapabilityAction::NetAdmin => "NET_ADMIN",
        CapabilityAction::NetBindService => "NET_BIND_SERVICE",
        CapabilityAction::NetRaw => "NET_RAW",
        CapabilityAction::Setfcap => "SETFCAP",
        CapabilityAction::Setgid => "SETGID",
        CapabilityAction::Setpcap => "SETPCAP",
        CapabilityAction::Setuid => "SETUID",
        CapabilityAction::SysAdmin => "SYS_ADMIN",
        CapabilityAction::SysChroot => "SYS_CHROOT",
        CapabilityAction::SysPtrace => "SYS_PTRACE",
        CapabilityAction::SysTime => "SYS_TIME",
    }
}

/// The sentence that reports a rejection reason: what is wrong, then the
/// offending value.
pub open spec fn describe(v: Violation) -> Seq<char> {
    match v {
        Violation::UnsupportedVersion(s) => "unsupported policy version: "@ + s,
        Violation::InvalidStorageUri(s) => "invalid storage uri: "@ + s,
        Violation::EmptyAccessSet(s) => "empty access set for storage uri: "@ + s,
        Violation::InvalidNetworkEntry(s, NetworkKind::Host) => "invalid network host: "@ + s,
        Violation::InvalidNetworkEntry(s, NetworkKind::Cidr) => "invalid network cidr: "@ + s,
        Violation::InvalidEnvironmentKey(s) => "invalid environment key: "@ + s,
        Violation::ConflictingCapability(c) => "capability both dropped and added: "@
            + capability_text(c),
        Violation::ContradictoryPermission(s) => "entry both allowed and denied: "@ + s,
    }
}

impl ValidationError {
    /// The rejection reason in words.
    pub fn message(&self) -> (text: String)
        ensures
            text@ == describe(self@),
    {
        match self {
            ValidationError::UnsupportedVersion(s) => String::from_str(
                "unsupported policy version: ",
            ).concat(s.as_str()),
            ValidationError::InvalidStorageUri(s) => String::from_str(
                "invalid storage uri: ",
            ).concat(s.as_str()),
            ValidationError::EmptyAccessSet(s) => String::from_str(
                "empty access set for storage uri: ",
            ).concat(s.as_str()),
            ValidationError::InvalidNetworkEntry(s, NetworkKind::Host) => String::from_str(
                "invalid network host: ",
            ).concat(s.as_str()),
            ValidationError::InvalidNetworkEntry(s, NetworkKind::Cidr) => String::from_str(
                "invalid network cidr: ",
            ).concat(s.as_str()),
            ValidationError::InvalidEnvironmentKey(s) => String::from_str(
                "invalid environment key: ",
            ).concat(s.as_str()),
            ValidationError::ConflictingCapability(c) => String::from_str(
                "capability both dropped and added: ",
            ).concat(capability_name(*c)),
            ValidationError::ContradictoryPermission(s) => String::from_str(
                "entry both allowed and denied: ",
            ).concat(s.as_str()),
        }
    }
}

} // verus!
