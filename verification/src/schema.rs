//! The YAML form of each type of the policy model.

use vstd::prelude::*;
use vstd::string::StringExecFns;
use crate::codec::{
    as_mapping, decode_list, decode_opt, decode_opt_bool, decode_opt_list, decode_opt_text,
    decode_required, decode_text, encode_bool, encode_list, encode_opt, encode_opt_list,
    encode_opt_text, field, find_field, is_key, keys_of, lemma_dict, list_decodes, mapping_of,
    lemma_one_list, lemma_one_opt, lemma_one_opt_list, lemma_one_required, opt_bool_decodes,
    opt_decodes, opt_list_decodes, opt_text_decodes, required_decodes, same_list, same_opt,
    same_opt_list, same_opt_text, same_text, text_decodes, text_node, YamlCodec,
};
use crate::error::{capability_name, capability_text};
use crate::model::{
    AccessType, CapabilityAction, DockerCapabilities, DockerRuntime, DockerSecurity,
    EnvironmentPermission, EnvironmentPermissions, HyperlightRuntime, NetworkCidrPermission,
    NetworkHostPermission, NetworkPermission, PermissionList, Permissions, PolicyDocument,
    ResourcePermission, Runtime, StoragePermission,
};
use crate::text::str_equal;
use crate::yaml::{is_writable, YamlNode};

verus! {

/// The name under which a kind of access is written.
pub open spec fn access_text(a: AccessType) -> Seq<char> {
    match a {
        AccessType::Read => "read"@,
        AccessType::Write => "write"@,
        AccessType::Execute => "execute"@,
        AccessType::Delete => "delete"@,
    }
}

/// The name under which a kind of access is written.
pub fn access_name(a: AccessType) -> (name: &'static str)
    ensures
        name@ == access_text(a),
{
    match a {
        AccessType::Read => "read",
        AccessType::Write => "write",
        AccessType::Execute => "execute",
        AccessType::Delete => "delete",
    }
}

impl YamlCodec for AccessType {
    open spec fn decodes(n: YamlNode, d: AccessType) -> bool {
        is_key(n, access_text(d))
    }

    fn decode(n: &YamlNode) -> (r: Result<AccessType, String>) {
        match n {
            YamlNode::Text(s) => {
                let t: &str = s.as_str();
                if str_equal(t, "read") {
                    Ok(AccessType::Read)
                } else if str_equal(t, "write") {
                    Ok(AccessType::Write)
                } else if str_equal(t, "execute") {
                    Ok(AccessType::Execute)
                } else if str_equal(t, "delete") {
                    Ok(AccessType::Delete)
                } else {
                    Err(String::from_str("unknown access type"))
                }
            },
            _ => Err(String::from_str("an access type is a string")),
        }
    }

    fn encode(&self) -> (n: YamlNode) {
        text_node(access_name(*self))
    }

    open spec fn same(a: AccessType, b: AccessType) -> bool {
        a == b
    }

    proof fn lemma_one_value(n: YamlNode, a: AccessType, b: AccessType) {
        assert(AccessType::decodes(n, a));
        assert(AccessType::decodes(n, b));
        reveal_strlit("read");
        reveal_strlit("write");
        reveal_strlit("execute");
        reveal_strlit("delete");
        assert("read"@.len() == 4);
        assert("write"@.len() == 5);
        assert("execute"@.len() == 7);
        assert("delete"@.len() == 6);
    }
}

/// The keys of a storage entry.
pub open spec fn storage_keys() -> Seq<Seq<char>> {
    seq!["uri"@, "access"@]
}

impl YamlCodec for StoragePermission {
    open spec fn decodes(n: YamlNode, d: StoragePermission) -> bool {
        match mapping_of(n, storage_keys()) {
            None => false,
            Some(pairs) => text_decodes(field(pairs, "uri"@), d.uri) && list_decodes(
                field(pairs, "access"@),
                d.access,
            ),
        }
    }

    fn decode(n: &YamlNode) -> (r: Result<StoragePermission, String>) {
        let known: Vec<&'static str> = vec!["uri", "access"];
        proof {
            assert(keys_of(known@) =~= storage_keys());
        }
        match as_mapping(n, &known) {
            None => Err(String::from_str("a storage entry is a mapping of uri and access")),
            Some(pairs) => {
                let uri: String = decode_text(find_field(pairs, "uri"))?;
                let access: Vec<AccessType> = decode_list(find_field(pairs, "access"))?;
                Ok(StoragePermission { uri, access })
            },
        }
    }

    fn encode(&self) -> (n: YamlNode) {
        let mut pairs: Vec<(YamlNode, YamlNode)> = Vec::new();
        pairs.push((text_node("uri"), text_node(self.uri.as_str())));
        pairs.push((text_node("access"), encode_list(&self.access)));
        let n: YamlNode = YamlNode::Dict(pairs);
        proof {
            reveal_strlit("uri");
            reveal_strlit("access");
            assert("uri"@.len() != "access"@.len());
            lemma_dict(n, storage_keys(), storage_keys());
        }
        n
    }

    open spec fn same(a: StoragePermission, b: StoragePermission) -> bool {
        &&& same_text(a.uri, b.uri)
        &&& same_list(a.access, b.access)
    }

    proof fn lemma_one_value(n: YamlNode, a: StoragePermission, b: StoragePermission) {
        assert(StoragePermission::decodes(n, a));
        assert(StoragePermission::decodes(n, b));
        let pairs = mapping_of(n, storage_keys())->Some_0;
        lemma_one_list(field(pairs, "access"@), a.access, b.access);
    }
}

impl YamlCodec for CapabilityAction {
    open spec fn decodes(n: YamlNode, d: CapabilityAction) -> bool {
        is_key(n, capability_text(d))
    }

    fn decode(n: &YamlNode) -> (r: Result<CapabilityAction, String>) {
        match n {
            YamlNode::Text(s) => {
                let t: &str = s.as_str();
                if str_equal(t, "ALL") {
                    Ok(CapabilityAction::All)
                } else if str_equal(t, "AUDIT_WRITE") {
                    Ok(CapabilityAction::AuditWrite)
                } else if str_equal(t, "CHOWN") {
                    Ok(CapabilityAction::Chown)
                } else if str_equal(t, "DAC_OVERRIDE") {
                    Ok(CapabilityAction::DacOverride)
                } else if str_equal(t, "FOWNER") {
                    Ok(CapabilityAction::Fowner)
                } else if str_equal(t, "FSETID") {
                    Ok(CapabilityAction::Fsetid)
                } else if str_equal(t, "KILL") {
                    Ok(CapabilityAction::Kill)
                } else if str_equal(t, "MKNOD") {
                    Ok(CapabilityAction::Mknod)
                } else if str_equal(t, "NET_ADMIN") {
                    Ok(CapabilityAction::NetAdmin)
                } else if str_equal(t, "NET_BIND_SERVICE") {
                    Ok(CapabilityAction::NetBindService)
                } else if str_equal(t, "NET_RAW") {
                    Ok(CapabilityAction::NetRaw)
                } else if str_equal(t, "SETFCAP") {
                    Ok(CapabilityAction::Setfcap)
                } else if str_equal(t, "SETGID") {
                    Ok(CapabilityAction::Setgid)
                } else if str_equal(t, "SETPCAP") {
                    Ok(CapabilityAction::Setpcap)
                } else if str_equal(t, "SETUID") {
                    Ok(CapabilityAction::Setuid)
                } else if str_equal(t, "SYS_ADMIN") {
                    Ok(CapabilityAction::SysAdmin)
                } else if str_equal(t, "SYS_CHROOT") {
                    Ok(CapabilityAction::SysChroot)
                } else if str_equal(t, "SYS_PTRACE") {
                    Ok(CapabilityAction::SysPtrace)
                } else if str_equal(t, "SYS_TIME") {
                    Ok(CapabilityAction::SysTime)
                } else {
                    Err(String::from_str("unknown capability"))
                }
            },
            _ => Err(String::from_str("a capability is a string")),
        }
    }

    fn encode(&self) -> (n: YamlNode) {
        text_node(capability_name(*self))
    }

    open spec fn same(a: CapabilityAction, b: CapabilityAction) -> bool {
        a == b
    }

    proof fn lemma_one_value(n: YamlNode, a: CapabilityAction, b: CapabilityAction) {
        assert(CapabilityAction::decodes(n, a));
        assert(CapabilityAction::decodes(n, b));
        reveal_strlit("ALL");
        reveal_strlit("AUDIT_WRITE");
        reveal_strlit("CHOWN");
        reveal_strlit("DAC_OVERRIDE");
        reveal_strlit("FOWNER");
        reveal_strlit("FSETID");
        reveal_strlit("KILL");
        reveal_strlit("MKNOD");
        reveal_strlit("NET_ADMIN");
        reveal_strlit("NET_BIND_SERVICE");
        reveal_strlit("NET_RAW");
        reveal_strlit("SETFCAP");
        reveal_strlit("SETGID");
        reveal_strlit("SETPCAP");
        reveal_strlit("SETUID");
        reveal_strlit("SYS_ADMIN");
        reveal_strlit("SYS_CHROOT");
        reveal_strlit("SYS_PTRACE");
        reveal_strlit("SYS_TIME");
        assert("ALL"@.len() == 3);
        assert("AUDIT_WRITE"@.len() == 11);
        assert("CHOWN"@.len() == 5);
        assert("DAC_OVERRIDE"@.len() == 12);
        assert("FOWNER"@.len() == 6);
        assert("FSETID"@.len() == 6);
        assert("KILL"@.len() == 4);
        assert("MKNOD"@.len() == 5);
        assert("NET_ADMIN"@.len() == 9);
        assert("NET_BIND_SERVICE"@.len() == 16);
        assert("NET_RAW"@.len() == 7);
        assert("SETFCAP"@.len() == 7);
        assert("SETGID"@.len() == 6);
        assert("SETPCAP"@.len() == 7);
        assert("SETUID"@.len() == 6);
        assert("SYS_ADMIN"@.len() == 9);
        assert("SYS_CHROOT"@.len() == 10);
        assert("SYS_PTRACE"@.len() == 10);
        assert("SYS_TIME"@.len() == 8);
        assert("CHOWN"@[0] != "MKNOD"@[0]);
        assert("FOWNER"@[1] != "FSETID"@[1]);
        assert("FOWNER"@[0] != "SETGID"@[0]);
        assert("FOWNER"@[0] != "SETUID"@[0]);
        assert("FSETID"@[0] != "SETGID"@[0]);
        assert("FSETID"@[0] != "SETUID"@[0]);
        assert("NET_ADMIN"@[0] != "SYS_ADMIN"@[0]);
        assert("NET_RAW"@[0] != "SETFCAP"@[0]);
        assert("NET_RAW"@[0] != "SETPCAP"@[0]);
        assert("SETFCAP"@[3] != "SETPCAP"@[3]);
        assert("SETGID"@[3] != "SETUID"@[3]);
        assert("SYS_CHROOT"@[4] != "SYS_PTRACE"@[4]);
    }
}

/// The keys of a network entry; an entry holds one of them.
pub open spec fn network_keys() -> Seq<Seq<char>> {
    seq!["host"@, "cidr"@]
}

impl YamlCodec for NetworkPermission {
    open spec fn decodes(n: YamlNode, d: NetworkPermission) -> bool {
        match mapping_of(n, network_keys()) {
            None => false,
            Some(pairs) => match d {
                NetworkPermission::Host(h) => text_decodes(field(pairs, "host"@), h.host) && field(
                    pairs,
                    "cidr"@,
                ) is None,
                NetworkPermission::Cidr(c) => text_decodes(field(pairs, "cidr"@), c.cidr) && field(
                    pairs,
                    "host"@,
                ) is None,
            },
        }
    }

    fn decode(n: &YamlNode) -> (r: Result<NetworkPermission, String>) {
        let known: Vec<&'static str> = vec!["host", "cidr"];
        proof {
            assert(keys_of(known@) =~= network_keys());
        }
        match as_mapping(n, &known) {
            None => Err(String::from_str("a network entry is a mapping of host or cidr")),
            Some(pairs) => {
                let host: Option<&YamlNode> = find_field(pairs, "host");
                let cidr: Option<&YamlNode> = find_field(pairs, "cidr");
                match (host, cidr) {
                    (Some(_), None) => {
                        let text: String = decode_text(host)?;
                        Ok(NetworkPermission::Host(NetworkHostPermission { host: text }))
                    },
                    (None, Some(_)) => {
                        let text: String = decode_text(cidr)?;
                        Ok(NetworkPermission::Cidr(NetworkCidrPermission { cidr: text }))
                    },
                    _ => Err(String::from_str("a network entry holds either host or cidr")),
                }
            },
        }
    }

    fn encode(&self) -> (n: YamlNode) {
        let mut pairs: Vec<(YamlNode, YamlNode)> = Vec::new();
        proof {
            reveal_strlit("host");
            reveal_strlit("cidr");
            assert("host"@[0] != "cidr"@[0]);
            assert(network_keys()[0] == "host"@ && network_keys()[1] == "cidr"@);
        }
        match self {
            NetworkPermission::Host(h) => {
                pairs.push((text_node("host"), text_node(h.host.as_str())));
                let n: YamlNode = YamlNode::Dict(pairs);
                proof {
                    lemma_dict(n, seq!["host"@], network_keys());
                }
                n
            },
            NetworkPermission::Cidr(c) => {
                pairs.push((text_node("cidr"), text_node(c.cidr.as_str())));
                let n: YamlNode = YamlNode::Dict(pairs);
                proof {
                    lemma_dict(n, seq!["cidr"@], network_keys());
                }
                n
            },
        }
    }

    open spec fn same(a: NetworkPermission, b: NetworkPermission) -> bool {
        match (a, b) {
            (NetworkPermission::Host(x), NetworkPermission::Host(y)) => x.host@ == y.host@,
            (NetworkPermission::Cidr(x), NetworkPermission::Cidr(y)) => x.cidr@ == y.cidr@,
            _ => false,
        }
    }

    proof fn lemma_one_value(n: YamlNode, a: NetworkPermission, b: NetworkPermission) {
        assert(NetworkPermission::decodes(n, a));
        assert(NetworkPermission::decodes(n, b));
    }
}

/// The key of an environment entry.
pub open spec fn environment_entry_keys() -> Seq<Seq<char>> {
    seq!["key"@]
}

impl YamlCodec for EnvironmentPermission {
    open spec fn decodes(n: YamlNode, d: EnvironmentPermission) -> bool {
        match mapping_of(n, environment_entry_keys()) {
            None => false,
            Some(pairs) => {
                &&& text_decodes(field(pairs, "key"@), d.key)
            },
        }
    }

    fn decode(n: &YamlNode) -> (r: Result<EnvironmentPermission, String>) {
        let known: Vec<&'static str> = vec!["key"];
        proof {
            assert(keys_of(known@) =~= environment_entry_keys());
        }
        match as_mapping(n, &known) {
            None => Err(String::from_str("an environment entry is a mapping of key")),
            Some(pairs) => {
                let key: String = decode_text(find_field(pairs, "key"))?;
                Ok(EnvironmentPermission { key })
            },
        }
    }

    fn encode(&self) -> (n: YamlNode) {
        let mut pairs: Vec<(YamlNode, YamlNode)> = Vec::new();
        pairs.push((text_node("key"), text_node(self.key.as_str())));
        let n: YamlNode = YamlNode::Dict(pairs);
        proof {
            reveal_strlit("key");
            lemma_dict(n, environment_entry_keys(), environment_entry_keys());
        }
        n
    }

    open spec fn same(a: EnvironmentPermission, b: EnvironmentPermission) -> bool {
        &&& same_text(a.key, b.key)
    }

    proof fn lemma_one_value(n: YamlNode, a: EnvironmentPermission, b: EnvironmentPermission) {
        assert(EnvironmentPermission::decodes(n, a));
        assert(EnvironmentPermission::decodes(n, b));
    }
}

/// The key of a resource or IPC entry.
pub open spec fn resource_keys() -> Seq<Seq<char>> {
    seq!["id"@]
}

impl YamlCodec for ResourcePermission {
    open spec fn decodes(n: YamlNode, d: ResourcePermission) -> bool {
        match mapping_of(n, resource_keys()) {
            None => false,
            Some(pairs) => {
                &&& text_decodes(field(pairs, "id"@), d.id)
            },
        }
    }

    fn decode(n: &YamlNode) -> (r: Result<ResourcePermission, String>) {
        let known: Vec<&'static str> = vec!["id"];
        proof {
            assert(keys_of(known@) =~= resource_keys());
        }
        match as_mapping(n, &known) {
            None => Err(String::from_str("a resource entry is a mapping of id")),
            Some(pairs) => {
                let id: String = decode_text(find_field(pairs, "id"))?;
                Ok(ResourcePermission { id })
            },
        }
    }

    fn encode(&self) -> (n: YamlNode) {
        let mut pairs: Vec<(YamlNode, YamlNode)> = Vec::new();
        pairs.push((text_node("id"), text_node(self.id.as_str())));
        let n: YamlNode = YamlNode::Dict(pairs);
        proof {
            reveal_strlit("id");
            lemma_dict(n, resource_keys(), resource_keys());
        }
        n
    }

    open spec fn same(a: ResourcePermission, b: ResourcePermission) -> bool {
        &&& same_text(a.id, b.id)
    }

    proof fn lemma_one_value(n: YamlNode, a: ResourcePermission, b: ResourcePermission) {
        assert(ResourcePermission::decodes(n, a));
        assert(ResourcePermission::decodes(n, b));
    }
}

/// The keys of an allow and deny list.
pub open spec fn list_keys() -> Seq<Seq<char>> {
    seq!["allow"@, "deny"@]
}

impl<E: YamlCodec> YamlCodec for PermissionList<E> {
    open spec fn decodes(n: YamlNode, d: PermissionList<E>) -> bool {
        match mapping_of(n, list_keys()) {
            None => false,
            Some(pairs) => {
                &&& opt_list_decodes(field(pairs, "allow"@), d.allow)
                &&& opt_list_decodes(field(pairs, "deny"@), d.deny)
            },
        }
    }

    fn decode(n: &YamlNode) -> (r: Result<PermissionList<E>, String>) {
        let known: Vec<&'static str> = vec!["allow", "deny"];
        proof {
            assert(keys_of(known@) =~= list_keys());
        }
        match as_mapping(n, &known) {
            None => Err(String::from_str("a permission list is a mapping of allow and deny")),
            Some(pairs) => {
                let allow: Option<Vec<E>> = decode_opt_list(find_field(pairs, "allow"))?;
                let deny: Option<Vec<E>> = decode_opt_list(find_field(pairs, "deny"))?;
                Ok(PermissionList { allow, deny })
            },
        }
    }

    fn encode(&self) -> (n: YamlNode) {
        let mut pairs: Vec<(YamlNode, YamlNode)> = Vec::new();
        pairs.push((text_node("allow"), encode_opt_list(&self.allow)));
        pairs.push((text_node("deny"), encode_opt_list(&self.deny)));
        let n: YamlNode = YamlNode::Dict(pairs);
        proof {
            reveal_strlit("allow");
            reveal_strlit("deny");
            assert("allow"@.len() != "deny"@.len());
            lemma_dict(n, list_keys(), list_keys());
        }
        n
    }

    open spec fn same(a: PermissionList<E>, b: PermissionList<E>) -> bool {
        &&& same_opt_list(a.allow, b.allow)
        &&& same_opt_list(a.deny, b.deny)
    }

    proof fn lemma_one_value(n: YamlNode, a: PermissionList<E>, b: PermissionList<E>) {
        assert(PermissionList::<E>::decodes(n, a));
        assert(PermissionList::<E>::decodes(n, b));
        let pairs = mapping_of(n, list_keys())->Some_0;
        lemma_one_opt_list(field(pairs, "allow"@), a.allow, b.allow);
        lemma_one_opt_list(field(pairs, "deny"@), a.deny, b.deny);
    }
}

/// The key of the environment category.
pub open spec fn environment_keys() -> Seq<Seq<char>> {
    seq!["allow"@]
}

impl YamlCodec for EnvironmentPermissions {
    open spec fn decodes(n: YamlNode, d: EnvironmentPermissions) -> bool {
        match mapping_of(n, environment_keys()) {
            None => false,
            Some(pairs) => {
                &&& opt_list_decodes(field(pairs, "allow"@), d.allow)
            },
        }
    }

    fn decode(n: &YamlNode) -> (r: Result<EnvironmentPermissions, String>) {
        let known: Vec<&'static str> = vec!["allow"];
        proof {
            assert(keys_of(known@) =~= environment_keys());
        }
        match as_mapping(n, &known) {
            None => Err(String::from_str("environment permissions are a mapping of allow")),
            Some(pairs) => {
                let allow: Option<Vec<EnvironmentPermission>> = decode_opt_list(
                    find_field(pairs, "allow"),
                )?;
                Ok(EnvironmentPermissions { allow })
            },
        }
    }

    fn encode(&self) -> (n: YamlNode) {
        let mut pairs: Vec<(YamlNode, YamlNode)> = Vec::new();
        pairs.push((text_node("allow"), encode_opt_list(&self.allow)));
        let n: YamlNode = YamlNode::Dict(pairs);
        proof {
            reveal_strlit("allow");
            lemma_dict(n, environment_keys(), environment_keys());
        }
        n
    }

    open spec fn same(a: EnvironmentPermissions, b: EnvironmentPermissions) -> bool {
        &&& same_opt_list(a.allow, b.allow)
    }

    proof fn lemma_one_value(n: YamlNode, a: EnvironmentPermissions, b: EnvironmentPermissions) {
        assert(EnvironmentPermissions::decodes(n, a));
        assert(EnvironmentPermissions::decodes(n, b));
        let pairs = mapping_of(n, environment_keys())->Some_0;
        lemma_one_opt_list(field(pairs, "allow"@), a.allow, b.allow);
    }
}

/// The keys of the Docker capabilities.
pub open spec fn capability_keys() -> Seq<Seq<char>> {
    seq!["drop"@, "add"@]
}

impl YamlCodec for DockerCapabilities {
    open spec fn decodes(n: YamlNode, d: DockerCapabilities) -> bool {
        match mapping_of(n, capability_keys()) {
            None => false,
            Some(pairs) => {
                &&& opt_list_decodes(field(pairs, "drop"@), d.drop)
                &&& opt_list_decodes(field(pairs, "add"@), d.add)
            },
        }
    }

    fn decode(n: &YamlNode) -> (r: Result<DockerCapabilities, String>) {
        let known: Vec<&'static str> = vec!["drop", "add"];
        proof {
            assert(keys_of(known@) =~= capability_keys());
        }
        match as_mapping(n, &known) {
            None => Err(String::from_str("capabilities are a mapping of drop and add")),
            Some(pairs) => {
                let drop: Option<Vec<CapabilityAction>> = decode_opt_list(
                    find_field(pairs, "drop"),
                )?;
                let add: Option<Vec<CapabilityAction>> = decode_opt_list(find_field(pairs, "add"))?;
                Ok(DockerCapabilities { drop, add })
            },
        }
    }

    fn encode(&self) -> (n: YamlNode) {
        let mut pairs: Vec<(YamlNode, YamlNode)> = Vec::new();
        pairs.push((text_node("drop"), encode_opt_list(&self.drop)));
        pairs.push((text_node("add"), encode_opt_list(&self.add)));
        let n: YamlNode = YamlNode::Dict(pairs);
        proof {
            reveal_strlit("drop");
            reveal_strlit("add");
            assert("drop"@.len() != "add"@.len());
            lemma_dict(n, capability_keys(), capability_keys());
        }
        n
    }

    open spec fn same(a: DockerCapabilities, b: DockerCapabilities) -> bool {
        &&& same_opt_list(a.drop, b.drop)
        &&& same_opt_list(a.add, b.add)
    }

    proof fn lemma_one_value(n: YamlNode, a: DockerCapabilities, b: DockerCapabilities) {
        assert(DockerCapabilities::decodes(n, a));
        assert(DockerCapabilities::decodes(n, b));
        let pairs = mapping_of(n, capability_keys())->Some_0;
        lemma_one_opt_list(field(pairs, "drop"@), a.drop, b.drop);
        lemma_one_opt_list(field(pairs, "add"@), a.add, b.add);
    }
}

/// The keys of the Docker security controls.
pub open spec fn security_keys() -> Seq<Seq<char>> {
    seq!["privileged"@, "no_new_privileges"@, "capabilities"@]
}

impl YamlCodec for DockerSecurity {
    open spec fn decodes(n: YamlNode, d: DockerSecurity) -> bool {
        match mapping_of(n, security_keys()) {
            None => false,
            Some(pairs) => {
                &&& opt_bool_decodes(field(pairs, "privileged"@), d.privileged)
                &&& opt_bool_decodes(field(pairs, "no_new_privileges"@), d.no_new_privileges)
                &&& opt_decodes(field(pairs, "capabilities"@), d.capabilities)
            },
        }
    }

    fn decode(n: &YamlNode) -> (r: Result<DockerSecurity, String>) {
        let known: Vec<&'static str> = vec!["privileged", "no_new_privileges", "capabilities"];
        proof {
            assert(keys_of(known@) =~= security_keys());
        }
        match as_mapping(n, &known) {
            None => Err(
                String::from_str(
                    "docker security is a mapping of privileged, no_new_privileges and capabilities",
                ),
            ),
            Some(pairs) => {
                let privileged: Option<bool> = decode_opt_bool(find_field(pairs, "privileged"))?;
                let no_new_privileges: Option<bool> = decode_opt_bool(
                    find_field(pairs, "no_new_privileges"),
                )?;
                let capabilities: Option<DockerCapabilities> = decode_opt(
                    find_field(pairs, "capabilities"),
                )?;
                Ok(DockerSecurity { privileged, no_new_privileges, capabilities })
            },
        }
    }

    fn encode(&self) -> (n: YamlNode) {
        let mut pairs: Vec<(YamlNode, YamlNode)> = Vec::new();
        pairs.push((text_node("privileged"), encode_bool(&self.privileged)));
        pairs.push((text_node("no_new_privileges"), encode_bool(&self.no_new_privileges)));
        pairs.push((text_node("capabilities"), encode_opt(&self.capabilities)));
        let n: YamlNode = YamlNode::Dict(pairs);
        proof {
            reveal_strlit("privileged");
            reveal_strlit("no_new_privileges");
            reveal_strlit("capabilities");
            assert("privileged"@.len() != "no_new_privileges"@.len());
            assert("privileged"@.len() != "capabilities"@.len());
            assert("no_new_privileges"@.len() != "capabilities"@.len());
            lemma_dict(n, security_keys(), security_keys());
        }
        n
    }

    open spec fn same(a: DockerSecurity, b: DockerSecurity) -> bool {
        &&& a.privileged == b.privileged
        &&& a.no_new_privileges == b.no_new_privileges
        &&& same_opt(a.capabilities, b.capabilities)
    }

    proof fn lemma_one_value(n: YamlNode, a: DockerSecurity, b: DockerSecurity) {
        assert(DockerSecurity::decodes(n, a));
        assert(DockerSecurity::decodes(n, b));
        let pairs = mapping_of(n, security_keys())->Some_0;
        lemma_one_opt(field(pairs, "capabilities"@), a.capabilities, b.capabilities);
    }
}

/// The key of the Docker sub-policy.
pub open spec fn docker_keys() -> Seq<Seq<char>> {
    seq!["security"@]
}

impl YamlCodec for DockerRuntime {
    open spec fn decodes(n: YamlNode, d: DockerRuntime) -> bool {
        match mapping_of(n, docker_keys()) {
            None => false,
            Some(pairs) => {
                &&& opt_decodes(field(pairs, "security"@), d.security)
            },
        }
    }

    fn decode(n: &YamlNode) -> (r: Result<DockerRuntime, String>) {
        let known: Vec<&'static str> = vec!["security"];
        proof {
            assert(keys_of(known@) =~= docker_keys());
        }
        match as_mapping(n, &known) {
            None => Err(String::from_str("a docker runtime is a mapping of security")),
            Some(pairs) => {
                let security: Option<DockerSecurity> = decode_opt(find_field(pairs, "security"))?;
                Ok(DockerRuntime { security })
            },
        }
    }

    fn encode(&self) -> (n: YamlNode) {
        let mut pairs: Vec<(YamlNode, YamlNode)> = Vec::new();
        pairs.push((text_node("security"), encode_opt(&self.security)));
        let n: YamlNode = YamlNode::Dict(pairs);
        proof {
            reveal_strlit("security");
            lemma_dict(n, docker_keys(), docker_keys());
        }
        n
    }

    open spec fn same(a: DockerRuntime, b: DockerRuntime) -> bool {
        &&& same_opt(a.security, b.security)
    }

    proof fn lemma_one_value(n: YamlNode, a: DockerRuntime, b: DockerRuntime) {
        assert(DockerRuntime::decodes(n, a));
        assert(DockerRuntime::decodes(n, b));
        let pairs = mapping_of(n, docker_keys())->Some_0;
        lemma_one_opt(field(pairs, "security"@), a.security, b.security);
    }
}

impl YamlCodec for HyperlightRuntime {
    open spec fn decodes(n: YamlNode, d: HyperlightRuntime) -> bool {
        mapping_of(n, Seq::empty()) is Some
    }

    fn decode(n: &YamlNode) -> (r: Result<HyperlightRuntime, String>) {
        let known: Vec<&'static str> = Vec::new();
        proof {
            assert(keys_of(known@) =~= Seq::<Seq<char>>::empty());
        }
        match as_mapping(n, &known) {
            None => Err(String::from_str("a hyperlight runtime is an empty mapping")),
            Some(_) => Ok(HyperlightRuntime {  }),
        }
    }

    fn encode(&self) -> (n: YamlNode) {
        let pairs: Vec<(YamlNode, YamlNode)> = Vec::new();
        let n: YamlNode = YamlNode::Dict(pairs);
        proof {
            lemma_dict(n, Seq::empty(), Seq::empty());
        }
        n
    }

    open spec fn same(a: HyperlightRuntime, b: HyperlightRuntime) -> bool {
        true
    }

    proof fn lemma_one_value(n: YamlNode, a: HyperlightRuntime, b: HyperlightRuntime) {
        assert(HyperlightRuntime::decodes(n, a));
        assert(HyperlightRuntime::decodes(n, b));
    }
}

/// The keys of the runtime category.
pub open spec fn runtime_keys() -> Seq<Seq<char>> {
    seq!["docker"@, "hyperlight"@]
}

impl YamlCodec for Runtime {
    open spec fn decodes(n: YamlNode, d: Runtime) -> bool {
        match mapping_of(n, runtime_keys()) {
            None => false,
            Some(pairs) => {
                &&& opt_decodes(field(pairs, "docker"@), d.docker)
                &&& opt_decodes(field(pairs, "hyperlight"@), d.hyperlight)
            },
        }
    }

    fn decode(n: &YamlNode) -> (r: Result<Runtime, String>) {
        let known: Vec<&'static str> = vec!["docker", "hyperlight"];
        proof {
            assert(keys_of(known@) =~= runtime_keys());
        }
        match as_mapping(n, &known) {
            None => Err(String::from_str("a runtime is a mapping of docker and hyperlight")),
            Some(pairs) => {
                let docker: Option<DockerRuntime> = decode_opt(find_field(pairs, "docker"))?;
                let hyperlight: Option<HyperlightRuntime> = decode_opt(
                    find_field(pairs, "hyperlight"),
                )?;
                Ok(Runtime { docker, hyperlight })
            },
        }
    }

    fn encode(&self) -> (n: YamlNode) {
        let mut pairs: Vec<(YamlNode, YamlNode)> = Vec::new();
        pairs.push((text_node("docker"), encode_opt(&self.docker)));
        pairs.push((text_node("hyperlight"), encode_opt(&self.hyperlight)));
        let n: YamlNode = YamlNode::Dict(pairs);
        proof {
            reveal_strlit("docker");
            reveal_strlit("hyperlight");
            assert("docker"@.len() != "hyperlight"@.len());
            lemma_dict(n, runtime_keys(), runtime_keys());
        }
        n
    }

    open spec fn same(a: Runtime, b: Runtime) -> bool {
        &&& same_opt(a.docker, b.docker)
        &&& same_opt(a.hyperlight, b.hyperlight)
    }

    proof fn lemma_one_value(n: YamlNode, a: Runtime, b: Runtime) {
        assert(Runtime::decodes(n, a));
        assert(Runtime::decodes(n, b));
        let pairs = mapping_of(n, runtime_keys())->Some_0;
        lemma_one_opt(field(pairs, "docker"@), a.docker, b.docker);
        lemma_one_opt(field(pairs, "hyperlight"@), a.hyperlight, b.hyperlight);
    }
}

/// The keys of the permissions: one for each category.
pub open spec fn permission_keys() -> Seq<Seq<char>> {
    seq!["storage"@, "network"@, "environment"@, "runtime"@, "resources"@, "ipc"@]
}

impl YamlCodec for Permissions {
    open spec fn decodes(n: YamlNode, d: Permissions) -> bool {
        match mapping_of(n, permission_keys()) {
            None => false,
            Some(pairs) => {
                &&& opt_decodes(field(pairs, "storage"@), d.storage)
                &&& opt_decodes(field(pairs, "network"@), d.network)
                &&& opt_decodes(field(pairs, "environment"@), d.environment)
                &&& opt_decodes(field(pairs, "runtime"@), d.runtime)
                &&& opt_decodes(field(pairs, "resources"@), d.resources)
                &&& opt_decodes(field(pairs, "ipc"@), d.ipc)
            },
        }
    }

    fn decode(n: &YamlNode) -> (r: Result<Permissions, String>) {
        let known: Vec<&'static str> = vec![
            "storage",
            "network",
            "environment",
            "runtime",
            "resources",
            "ipc",
        ];
        proof {
            assert(keys_of(known@) =~= permission_keys());
        }
        match as_mapping(n, &known) {
            None => Err(String::from_str("permissions are a mapping of the six categories")),
            Some(pairs) => {
                let storage: Option<PermissionList<StoragePermission>> = decode_opt(
                    find_field(pairs, "storage"),
                )?;
                let network: Option<PermissionList<NetworkPermission>> = decode_opt(
                    find_field(pairs, "network"),
                )?;
                let environment: Option<EnvironmentPermissions> = decode_opt(
                    find_field(pairs, "environment"),
                )?;
                let runtime: Option<Runtime> = decode_opt(find_field(pairs, "runtime"))?;
                let resources: Option<PermissionList<ResourcePermission>> = decode_opt(
                    find_field(pairs, "resources"),
                )?;
                let ipc: Option<PermissionList<ResourcePermission>> = decode_opt(
                    find_field(pairs, "ipc"),
                )?;
                Ok(Permissions { storage, network, environment, runtime, resources, ipc })
            },
        }
    }

    fn encode(&self) -> (n: YamlNode) {
        let mut pairs: Vec<(YamlNode, YamlNode)> = Vec::new();
        pairs.push((text_node("storage"), encode_opt(&self.storage)));
        pairs.push((text_node("network"), encode_opt(&self.network)));
        pairs.push((text_node("environment"), encode_opt(&self.environment)));
        pairs.push((text_node("runtime"), encode_opt(&self.runtime)));
        pairs.push((text_node("resources"), encode_opt(&self.resources)));
        pairs.push((text_node("ipc"), encode_opt(&self.ipc)));
        let n: YamlNode = YamlNode::Dict(pairs);
        proof {
            reveal_strlit("storage");
            reveal_strlit("network");
            reveal_strlit("environment");
            reveal_strlit("runtime");
            reveal_strlit("resources");
            reveal_strlit("ipc");
            assert("storage"@[0] != "network"@[0]);
            assert("storage"@.len() != "environment"@.len());
            assert("storage"@[0] != "runtime"@[0]);
            assert("storage"@.len() != "resources"@.len());
            assert("storage"@.len() != "ipc"@.len());
            assert("network"@.len() != "environment"@.len());
            assert("network"@[0] != "runtime"@[0]);
            assert("network"@.len() != "resources"@.len());
            assert("network"@.len() != "ipc"@.len());
            assert("environment"@.len() != "runtime"@.len());
            assert("environment"@.len() != "resources"@.len());
            assert("environment"@.len() != "ipc"@.len());
            assert("runtime"@.len() != "resources"@.len());
            assert("runtime"@.len() != "ipc"@.len());
            assert("resources"@.len() != "ipc"@.len());
            lemma_dict(n, permission_keys(), permission_keys());
        }
        n
    }

    open spec fn same(a: Permissions, b: Permissions) -> bool {
        &&& same_opt(a.storage, b.storage)
        &&& same_opt(a.network, b.network)
        &&& same_opt(a.environment, b.environment)
        &&& same_opt(a.runtime, b.runtime)
        &&& same_opt(a.resources, b.resources)
        &&& same_opt(a.ipc, b.ipc)
    }

    proof fn lemma_one_value(n: YamlNode, a: Permissions, b: Permissions) {
        assert(Permissions::decodes(n, a));
        assert(Permissions::decodes(n, b));
        let pairs = mapping_of(n, permission_keys())->Some_0;
        lemma_one_opt(field(pairs, "storage"@), a.storage, b.storage);
        lemma_one_opt(field(pairs, "network"@), a.network, b.network);
        lemma_one_opt(field(pairs, "environment"@), a.environment, b.environment);
        lemma_one_opt(field(pairs, "runtime"@), a.runtime, b.runtime);
        lemma_one_opt(field(pairs, "resources"@), a.resources, b.resources);
        lemma_one_opt(field(pairs, "ipc"@), a.ipc, b.ipc);
    }
}

/// The keys of a policy document.
pub open spec fn document_keys() -> Seq<Seq<char>> {
    seq!["version"@, "description"@, "permissions"@]
}

impl YamlCodec for PolicyDocument {
    open spec fn decodes(n: YamlNode, d: PolicyDocument) -> bool {
        match mapping_of(n, document_keys()) {
            None => false,
            Some(pairs) => {
                &&& text_decodes(field(pairs, "version"@), d.version)
                &&& opt_text_decodes(field(pairs, "description"@), d.description)
                &&& required_decodes(field(pairs, "permissions"@), d.permissions)
            },
        }
    }

    fn decode(n: &YamlNode) -> (r: Result<PolicyDocument, String>) {
        let known: Vec<&'static str> = vec!["version", "description", "permissions"];
        proof {
            assert(keys_of(known@) =~= document_keys());
        }
        match as_mapping(n, &known) {
            None => Err(
                String::from_str("a policy is a mapping of version, description and permissions"),
            ),
            Some(pairs) => {
                let version: String = decode_text(find_field(pairs, "version"))?;
                let description: Option<String> = decode_opt_text(
                    find_field(pairs, "description"),
                )?;
                let permissions: Permissions = decode_required(find_field(pairs, "permissions"))?;
                Ok(PolicyDocument { version, description, permissions })
            },
        }
    }

    fn encode(&self) -> (n: YamlNode) {
        let mut pairs: Vec<(YamlNode, YamlNode)> = Vec::new();
        pairs.push((text_node("version"), text_node(self.version.as_str())));
        pairs.push((text_node("description"), encode_opt_text(&self.description)));
        pairs.push((text_node("permissions"), self.permissions.encode()));
        let n: YamlNode = YamlNode::Dict(pairs);
        proof {
            reveal_strlit("version");
            reveal_strlit("description");
            reveal_strlit("permissions");
            assert("version"@.len() != "description"@.len());
            assert("version"@.len() != "permissions"@.len());
            assert("description"@[0] != "permissions"@[0]);
            lemma_dict(n, document_keys(), document_keys());
        }
        n
    }

    open spec fn same(a: PolicyDocument, b: PolicyDocument) -> bool {
        &&& same_text(a.version, b.version)
        &&& same_opt_text(a.description, b.description)
        &&& Permissions::same(a.permissions, b.permissions)
    }

    proof fn lemma_one_value(n: YamlNode, a: PolicyDocument, b: PolicyDocument) {
        assert(PolicyDocument::decodes(n, a));
        assert(PolicyDocument::decodes(n, b));
        let pairs = mapping_of(n, document_keys())->Some_0;
        lemma_one_required(field(pairs, "permissions"@), a.permissions, b.permissions);
    }
}

} // verus!
