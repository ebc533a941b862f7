use policy_mcp::consistency::{first_repeated_network_entry, first_repeated_storage_entry};
use policy_mcp::text::{
    valid_cidr, valid_env_key, valid_hostname, valid_ipv4, valid_ipv6, valid_prefix_length,
    valid_resource_uri,
};
use policy_mcp::{
    AccessType, CapabilityAction, DockerCapabilities, DockerRuntime, DockerSecurity,
    EnvironmentPermission, EnvironmentPermissions, NetworkCidrPermission, NetworkHostPermission,
    NetworkKind, NetworkPermission, PermissionList, Permissions, PolicyDocument, PolicyParser,
    ResourcePermission, Runtime, StoragePermission, ValidationError,
};

fn document(permissions: Permissions) -> PolicyDocument {
    PolicyDocument {
        version: "1.0".to_string(),
        description: None,
        permissions,
    }
}

fn storage(uri: &str, access: Vec<AccessType>) -> StoragePermission {
    StoragePermission {
        uri: uri.to_string(),
        access,
    }
}

fn host(name: &str) -> NetworkPermission {
    NetworkPermission::Host(NetworkHostPermission {
        host: name.to_string(),
    })
}

fn cidr(block: &str) -> NetworkPermission {
    NetworkPermission::Cidr(NetworkCidrPermission {
        cidr: block.to_string(),
    })
}

fn with_capabilities(
    drop: Option<Vec<CapabilityAction>>,
    add: Option<Vec<CapabilityAction>>,
) -> PolicyDocument {
    let mut permissions = Permissions::default();
    permissions.runtime = Some(Runtime {
        docker: Some(DockerRuntime {
            security: Some(DockerSecurity {
                privileged: None,
                no_new_privileges: None,
                capabilities: Some(DockerCapabilities { drop, add }),
            }),
        }),
        hyperlight: None,
    });
    document(permissions)
}

#[test]
fn default_permissions_are_all_absent() {
    let p = Permissions::default();
    assert!(p.storage.is_none());
    assert!(p.network.is_none());
    assert!(p.environment.is_none());
    assert!(p.runtime.is_none());
    assert!(p.resources.is_none());
    assert!(p.ipc.is_none());
    assert_eq!(document(p).validate(), Ok(()));
}

#[test]
fn version_gate() {
    for v in ["2.0", "1", "1.00", " 1.0", "", "v1.0"] {
        let doc = PolicyDocument {
            version: v.to_string(),
            description: None,
            permissions: Permissions::default(),
        };
        assert_eq!(
            doc.validate(),
            Err(ValidationError::UnsupportedVersion(v.to_string()))
        );
    }
}

#[test]
fn resource_uris() {
    assert!(valid_resource_uri("fs://work/agent/**"));
    assert!(valid_resource_uri("a://b"));
    assert!(!valid_resource_uri("a://"));
    assert!(!valid_resource_uri("://b"));
    assert!(!valid_resource_uri("fs:/b"));
    assert!(!valid_resource_uri(""));
    assert!(!valid_resource_uri("/tmp/data"));
}

#[test]
fn host_names() {
    assert!(valid_hostname("api.example.com"));
    assert!(valid_hostname("localhost"));
    assert!(valid_hostname("my-host-1"));
    assert!(!valid_hostname(""));
    assert!(!valid_hostname("bad host"));
    assert!(!valid_hostname("under_score"));
    assert!(!valid_hostname("tab\tname"));
}

#[test]
fn ipv4_addresses() {
    assert!(valid_ipv4("192.168.1.0"));
    assert!(valid_ipv4("0.0.0.0"));
    assert!(valid_ipv4("255.255.255.255"));
    assert!(!valid_ipv4("256.0.0.1"));
    assert!(!valid_ipv4("1.2.3"));
    assert!(!valid_ipv4("1.2.3.4.5"));
    assert!(!valid_ipv4("1..2.3"));
    assert!(!valid_ipv4("1.2.3.4."));
    assert!(!valid_ipv4("1.2.3.0004"));
    assert!(!valid_ipv4(""));
}

#[test]
fn ipv6_addresses() {
    assert!(valid_ipv6("::"));
    assert!(valid_ipv6("::1"));
    assert!(valid_ipv6("fe80::"));
    assert!(valid_ipv6("2001:db8::1"));
    assert!(valid_ipv6("1:2:3:4:5:6:7:8"));
    assert!(valid_ipv6("1:2:3:4:5:6:7::"));
    assert!(valid_ipv6("FFFF:ffff::abcd"));
    assert!(!valid_ipv6(""));
    assert!(!valid_ipv6(":"));
    assert!(!valid_ipv6(":1"));
    assert!(!valid_ipv6("1:"));
    assert!(!valid_ipv6(":::"));
    assert!(!valid_ipv6("1::2::3"));
    assert!(!valid_ipv6("1:2:3:4:5:6:7"));
    assert!(!valid_ipv6("1:2:3:4:5:6:7:8:9"));
    assert!(!valid_ipv6("1:2:3:4:5:6:7:8::"));
    assert!(!valid_ipv6("12345::"));
    assert!(!valid_ipv6("g::1"));
}

#[test]
fn prefix_lengths() {
    assert!(valid_prefix_length("0", 32));
    assert!(valid_prefix_length("32", 32));
    assert!(!valid_prefix_length("33", 32));
    assert!(valid_prefix_length("128", 128));
    assert!(!valid_prefix_length("129", 128));
    assert!(!valid_prefix_length("", 32));
    assert!(!valid_prefix_length("1000", 128));
    assert!(!valid_prefix_length("3x", 32));
}

#[test]
fn cidr_blocks() {
    assert!(valid_cidr("192.168.1.0/24"));
    assert!(valid_cidr("10.0.0.0/8"));
    assert!(valid_cidr("0.0.0.0/0"));
    assert!(valid_cidr("2001:db8::/32"));
    assert!(valid_cidr("::/128"));
    assert!(!valid_cidr("192.168.1.0"));
    assert!(!valid_cidr("192.168.1.0/33"));
    assert!(!valid_cidr("192.168.1.0/"));
    assert!(!valid_cidr("/24"));
    assert!(!valid_cidr("192.168.1.0/24/1"));
    assert!(!valid_cidr("2001:db8::/129"));
    assert!(!valid_cidr("example.com/24"));
}

#[test]
fn environment_keys() {
    assert!(valid_env_key("APP_CONFIG"));
    assert!(valid_env_key("_private"));
    assert!(valid_env_key("path2"));
    assert!(!valid_env_key(""));
    assert!(!valid_env_key("2FAST"));
    assert!(!valid_env_key("WITH SPACE"));
    assert!(!valid_env_key("A=B"));
    assert!(!valid_env_key("A-B"));
}

#[test]
fn storage_uri_is_checked() {
    let mut p = Permissions::default();
    p.storage = Some(PermissionList {
        allow: Some(vec![storage("fs://ok", vec![AccessType::Read])]),
        deny: Some(vec![storage("no-scheme", vec![AccessType::Read])]),
    });
    assert_eq!(
        document(p).validate(),
        Err(ValidationError::InvalidStorageUri("no-scheme".to_string()))
    );
}

#[test]
fn empty_access_set_is_rejected() {
    let mut p = Permissions::default();
    p.storage = Some(PermissionList {
        allow: Some(vec![storage("fs://a/**", vec![])]),
        deny: None,
    });
    assert_eq!(
        document(p).validate(),
        Err(ValidationError::EmptyAccessSet("fs://a/**".to_string()))
    );
    let mut p = Permissions::default();
    p.storage = Some(PermissionList {
        allow: None,
        deny: Some(vec![storage("not a uri", vec![])]),
    });
    assert!(document(p).validate().is_err());
}

#[test]
fn network_entries_are_checked() {
    let mut p = Permissions::default();
    p.network = Some(PermissionList {
        allow: Some(vec![host("api.example.com"), host("bad host")]),
        deny: None,
    });
    assert_eq!(
        document(p).validate(),
        Err(ValidationError::InvalidNetworkEntry(
            "bad host".to_string(),
            NetworkKind::Host
        ))
    );
    let mut p = Permissions::default();
    p.network = Some(PermissionList {
        allow: None,
        deny: Some(vec![cidr("10.0.0.0/40")]),
    });
    assert_eq!(
        document(p).validate(),
        Err(ValidationError::InvalidNetworkEntry(
            "10.0.0.0/40".to_string(),
            NetworkKind::Cidr
        ))
    );
}

#[test]
fn environment_key_is_checked() {
    let mut p = Permissions::default();
    p.environment = Some(EnvironmentPermissions {
        allow: Some(vec![
            EnvironmentPermission {
                key: "PATH".to_string(),
            },
            EnvironmentPermission {
                key: "9LIVES".to_string(),
            },
        ]),
    });
    assert_eq!(
        document(p).validate(),
        Err(ValidationError::InvalidEnvironmentKey("9LIVES".to_string()))
    );
}

#[test]
fn storage_rules_come_before_network_rules() {
    let mut p = Permissions::default();
    p.storage = Some(PermissionList {
        allow: Some(vec![storage("fs://a", vec![])]),
        deny: None,
    });
    p.network = Some(PermissionList {
        allow: Some(vec![host("bad host")]),
        deny: None,
    });
    assert_eq!(
        document(p).validate(),
        Err(ValidationError::EmptyAccessSet("fs://a".to_string()))
    );
}

#[test]
fn rules_come_before_consistency() {
    let mut p = Permissions::default();
    p.storage = Some(PermissionList {
        allow: Some(vec![storage("fs://a", vec![AccessType::Read])]),
        deny: Some(vec![storage("fs://a", vec![AccessType::Read])]),
    });
    p.environment = Some(EnvironmentPermissions {
        allow: Some(vec![EnvironmentPermission {
            key: "".to_string(),
        }]),
    });
    assert_eq!(
        document(p).validate(),
        Err(ValidationError::InvalidEnvironmentKey("".to_string()))
    );
}

#[test]
fn capability_conflict() {
    let accepted = with_capabilities(
        Some(vec![CapabilityAction::All]),
        Some(vec![CapabilityAction::NetBindService]),
    );
    assert_eq!(accepted.validate(), Ok(()));
    let rejected = with_capabilities(
        Some(vec![CapabilityAction::NetBindService]),
        Some(vec![CapabilityAction::NetBindService]),
    );
    assert_eq!(
        rejected.validate(),
        Err(ValidationError::ConflictingCapability(
            CapabilityAction::NetBindService
        ))
    );
}

#[test]
fn capability_conflict_names_the_first_dropped() {
    let doc = with_capabilities(
        Some(vec![
            CapabilityAction::Chown,
            CapabilityAction::Kill,
            CapabilityAction::NetRaw,
        ]),
        Some(vec![CapabilityAction::NetRaw, CapabilityAction::Kill]),
    );
    assert_eq!(
        doc.validate(),
        Err(ValidationError::ConflictingCapability(
            CapabilityAction::Kill
        ))
    );
    assert_eq!(
        with_capabilities(Some(vec![CapabilityAction::Kill]), None).validate(),
        Ok(())
    );
    assert_eq!(
        with_capabilities(None, Some(vec![CapabilityAction::Kill])).validate(),
        Ok(())
    );
}

#[test]
fn contradiction_detection() {
    let mut p = Permissions::default();
    p.storage = Some(PermissionList {
        allow: Some(vec![storage("fs://a/**", vec![AccessType::Read])]),
        deny: Some(vec![storage("fs://a/**", vec![AccessType::Read])]),
    });
    assert_eq!(
        document(p).validate(),
        Err(ValidationError::ContradictoryPermission(
            "fs://a/**".to_string()
        ))
    );
    let mut p = Permissions::default();
    p.storage = Some(PermissionList {
        allow: Some(vec![storage("fs://a/**", vec![AccessType::Read])]),
        deny: Some(vec![storage("fs://a/**", vec![AccessType::Write])]),
    });
    assert_eq!(document(p).validate(), Ok(()));
}

#[test]
fn access_sets_are_compared_as_sets() {
    let mut p = Permissions::default();
    p.storage = Some(PermissionList {
        allow: Some(vec![storage(
            "fs://a",
            vec![AccessType::Read, AccessType::Write],
        )]),
        deny: Some(vec![storage(
            "fs://a",
            vec![AccessType::Write, AccessType::Read, AccessType::Write],
        )]),
    });
    assert_eq!(
        document(p).validate(),
        Err(ValidationError::ContradictoryPermission("fs://a".to_string()))
    );
}

#[test]
fn uris_are_compared_as_written() {
    let mut p = Permissions::default();
    p.storage = Some(PermissionList {
        allow: Some(vec![storage("fs://A", vec![AccessType::Read])]),
        deny: Some(vec![storage("fs://a", vec![AccessType::Read])]),
    });
    assert_eq!(document(p).validate(), Ok(()));
}

#[test]
fn network_contradiction() {
    let mut p = Permissions::default();
    p.network = Some(PermissionList {
        allow: Some(vec![host("a.example"), cidr("10.0.0.0/8")]),
        deny: Some(vec![host("b.example"), cidr("10.0.0.0/8")]),
    });
    assert_eq!(
        document(p).validate(),
        Err(ValidationError::ContradictoryPermission(
            "10.0.0.0/8".to_string()
        ))
    );
}

#[test]
fn resource_and_ipc_contradiction() {
    let entry = |id: &str| ResourcePermission { id: id.to_string() };
    let mut p = Permissions::default();
    p.resources = Some(PermissionList {
        allow: Some(vec![entry("cpu"), entry("gpu")]),
        deny: Some(vec![entry("gpu")]),
    });
    assert_eq!(
        document(p).validate(),
        Err(ValidationError::ContradictoryPermission("gpu".to_string()))
    );
    let mut p = Permissions::default();
    p.ipc = Some(PermissionList {
        allow: Some(vec![entry("bus")]),
        deny: Some(vec![entry("bus")]),
    });
    assert_eq!(
        document(p).validate(),
        Err(ValidationError::ContradictoryPermission("bus".to_string()))
    );
    let mut p = Permissions::default();
    p.ipc = Some(PermissionList {
        allow: Some(vec![entry("bus")]),
        deny: Some(vec![entry("pipe")]),
    });
    assert_eq!(document(p).validate(), Ok(()));
}

#[test]
fn messages_name_the_offending_value() {
    assert_eq!(
        ValidationError::UnsupportedVersion("2.0".to_string()).message(),
        "unsupported policy version: 2.0"
    );
    assert_eq!(
        ValidationError::InvalidNetworkEntry("x y".to_string(), NetworkKind::Host).message(),
        "invalid network host: x y"
    );
    assert_eq!(
        ValidationError::ConflictingCapability(CapabilityAction::NetBindService).message(),
        "capability both dropped and added: NET_BIND_SERVICE"
    );
}

#[test]
fn programmatic_policy_validates_and_round_trips() {
    let permissions = Permissions {
        storage: Some(PermissionList {
            allow: Some(vec![
                storage("fs://app/data/**", vec![AccessType::Read, AccessType::Write]),
                storage("fs://app/config.json", vec![AccessType::Read]),
            ]),
            deny: Some(vec![storage(
                "fs://system/**",
                vec![AccessType::Read, AccessType::Write],
            )]),
        }),
        network: Some(PermissionList {
            allow: Some(vec![host("api.example.com"), cidr("192.168.1.0/24")]),
            deny: None,
        }),
        environment: Some(EnvironmentPermissions {
            allow: Some(vec![
                EnvironmentPermission {
                    key: "APP_CONFIG".to_string(),
                },
                EnvironmentPermission {
                    key: "LOG_LEVEL".to_string(),
                },
            ]),
        }),
        runtime: Some(Runtime {
            docker: Some(DockerRuntime {
                security: Some(DockerSecurity {
                    privileged: Some(false),
                    no_new_privileges: Some(true),
                    capabilities: Some(DockerCapabilities {
                        drop: Some(vec![CapabilityAction::All]),
                        add: Some(vec![CapabilityAction::NetBindService]),
                    }),
                }),
            }),
            hyperlight: None,
        }),
        resources: None,
        ipc: None,
    };
    let policy = PolicyDocument {
        version: "1.0".to_string(),
        description: Some("Programmatically created policy".to_string()),
        permissions,
    };
    assert_eq!(policy.validate(), Ok(()));
    let yaml = PolicyParser::to_yaml(&policy).unwrap();
    let parsed = PolicyParser::parse_str(&yaml).unwrap();
    assert_eq!(policy, parsed);
}

#[test]
fn repeated_entries_are_found_and_accepted() {
    let list = vec![
        storage("fs://a", vec![AccessType::Read]),
        storage("fs://b", vec![AccessType::Read]),
        storage("fs://a", vec![AccessType::Write]),
        storage("fs://b", vec![AccessType::Read]),
        storage("fs://a", vec![AccessType::Read]),
    ];
    assert_eq!(first_repeated_storage_entry(&list), Some(3));
    assert_eq!(first_repeated_storage_entry(&list[..3].to_vec()), None);
    assert_eq!(first_repeated_storage_entry(&vec![]), None);
    let hosts = vec![host("a.example"), cidr("10.0.0.0/8"), host("a.example")];
    assert_eq!(first_repeated_network_entry(&hosts), Some(2));
    assert_eq!(
        first_repeated_network_entry(&vec![host("10.0.0.0"), cidr("10.0.0.0/8")]),
        None
    );
    let mut p = Permissions::default();
    p.storage = Some(PermissionList {
        allow: Some(list),
        deny: None,
    });
    assert_eq!(document(p).validate(), Ok(()));
}
