use policy_mcp::{
    AccessType, PermissionList, Permissions, PolicyDocument, PolicyError, PolicyParser,
    StoragePermission, ValidationError, YamlNode,
};

fn text(s: &str) -> YamlNode {
    YamlNode::Text(s.to_string())
}

#[test]
fn test_parse_str_valid() {
    let yaml_content = r#"
version: "1.0"
description: "Test policy"
permissions:
  storage:
    allow:
    - uri: "fs://work/agent/**"
      access: ["read", "write"]
"#;

    let policy = PolicyParser::parse_str(yaml_content).unwrap();
    assert_eq!(policy.version, "1.0");
    assert_eq!(policy.description, Some("Test policy".to_string()));

    let storage = policy.permissions.storage.unwrap();
    let allow_list = storage.allow.unwrap();
    assert_eq!(allow_list.len(), 1);
    assert_eq!(allow_list[0].uri, "fs://work/agent/**");
    assert_eq!(
        allow_list[0].access,
        vec![AccessType::Read, AccessType::Write]
    );
}

#[test]
fn test_parse_str_invalid_version() {
    let yaml_content = r#"
version: "2.0"
description: "Test policy"
permissions: {}
"#;

    let result = PolicyParser::parse_str(yaml_content);
    assert!(result.is_err());
    result.unwrap_err();
}

#[test]
fn test_parse_str_invalid_yaml() {
    let yaml_content = r#"
invalid: yaml: content
  - malformed
"#;

    let result = PolicyParser::parse_str(yaml_content);
    assert!(result.is_err());
    assert!(result.unwrap_err().message().len() > 0);
}

#[test]
fn test_round_trip_serialization() {
    let mut permissions = Permissions::default();
    permissions.storage = Some(PermissionList {
        allow: Some(vec![StoragePermission {
            uri: "fs://work/agent/**".to_string(),
            access: vec![AccessType::Read, AccessType::Write],
        }]),
        deny: None,
    });

    let original = PolicyDocument {
        version: "1.0".to_string(),
        description: Some("Test policy".to_string()),
        permissions,
    };

    let yaml = PolicyParser::to_yaml(&original).unwrap();
    let parsed = PolicyParser::parse_str(&yaml).unwrap();

    assert_eq!(original, parsed);
}

#[test]
fn test_parse_bytes() {
    let yaml_content = r#"
version: "1.0"
description: "Bytes test"
permissions: {}
"#;

    let policy = PolicyParser::parse_bytes(yaml_content.as_bytes()).unwrap();
    assert_eq!(policy.version, "1.0");
    assert_eq!(policy.description, Some("Bytes test".to_string()));
}

#[test]
fn test_parse_bytes_invalid_utf8() {
    let invalid_utf8 = &[0xC0, 0xC1];
    let result = PolicyParser::parse_bytes(invalid_utf8);
    assert!(result.is_err());
}

#[test]
fn invalid_utf8_is_an_encoding_error() {
    let result = PolicyParser::parse_bytes(&[0xC0, 0xC1]);
    assert!(matches!(result, Err(PolicyError::Encoding)));
    assert_eq!(result.unwrap_err().message(), "Not valid UTF-8");
}

#[test]
fn invalid_version_is_reported_with_its_value() {
    let result = PolicyParser::parse_str("version: \"2.0\"\npermissions: {}\n");
    match result {
        Err(PolicyError::Validation(ValidationError::UnsupportedVersion(v))) => {
            assert_eq!(v, "2.0")
        }
        other => panic!("unexpected outcome: {:?}", other),
    }
}

#[test]
fn version_is_checked_before_anything_else() {
    let yaml = "version: \"0.9\"\npermissions:\n  storage:\n    allow:\n    - uri: \"nowhere\"\n      access: []\n";
    let result = PolicyParser::parse_str(yaml);
    assert!(matches!(
        result,
        Err(PolicyError::Validation(ValidationError::UnsupportedVersion(_)))
    ));
}

#[test]
fn malformed_yaml_is_a_format_error() {
    let result = PolicyParser::parse_str("invalid: yaml: content\n  - malformed\n");
    assert!(matches!(result, Err(PolicyError::Format(_))));
}

#[test]
fn unknown_top_level_key_is_a_format_error() {
    let result = PolicyParser::parse_str("version: \"1.0\"\npermissions: {}\nextra: 1\n");
    assert!(matches!(result, Err(PolicyError::Format(_))));
}

#[test]
fn unknown_category_is_a_format_error() {
    let result = PolicyParser::parse_str("version: \"1.0\"\npermissions:\n  gpu: {}\n");
    assert!(matches!(result, Err(PolicyError::Format(_))));
}

#[test]
fn wrong_value_type_is_a_format_error() {
    let result = PolicyParser::parse_str("version: \"1.0\"\ndescription: [a]\npermissions: {}\n");
    assert!(matches!(result, Err(PolicyError::Format(_))));
    let result = PolicyParser::parse_str("version: 1.0\npermissions: {}\n");
    assert!(matches!(result, Err(PolicyError::Format(_))));
}

#[test]
fn missing_version_is_a_format_error() {
    let result = PolicyParser::parse_str("permissions: {}\n");
    assert!(matches!(result, Err(PolicyError::Format(_))));
}

#[test]
fn unknown_access_type_is_a_format_error() {
    let yaml = "version: \"1.0\"\npermissions:\n  storage:\n    allow:\n    - uri: \"fs://a\"\n      access: [\"peek\"]\n";
    assert!(matches!(
        PolicyParser::parse_str(yaml),
        Err(PolicyError::Format(_))
    ));
}

#[test]
fn absent_and_empty_stay_apart() {
    let absent = PolicyParser::parse_str("version: \"1.0\"\npermissions: {}\n").unwrap();
    assert_eq!(absent.permissions, Permissions::default());
    assert_eq!(absent.description, None);
    let empty =
        PolicyParser::parse_str("version: \"1.0\"\npermissions:\n  storage:\n    allow: []\n")
            .unwrap();
    assert_eq!(
        empty.permissions.storage,
        Some(PermissionList {
            allow: Some(vec![]),
            deny: None
        })
    );
}

#[test]
fn parses_every_category() {
    let yaml = r#"
version: "1.0"
permissions:
  storage:
    deny:
    - uri: "fs://system/**"
      access: ["execute", "delete"]
  network:
    allow:
    - host: "api.example.com"
    - cidr: "10.0.0.0/8"
  environment:
    allow:
    - key: "PATH"
    - key: "HOME"
  runtime:
    docker:
      security:
        privileged: false
        no_new_privileges: true
        capabilities:
          drop: ["ALL"]
          add: ["NET_BIND_SERVICE"]
    hyperlight: {}
  resources:
    allow:
    - id: "cpu"
  ipc:
    deny:
    - id: "dbus"
"#;
    let policy = PolicyParser::parse_str(yaml).unwrap();
    let p = policy.permissions;
    let storage = p.storage.unwrap();
    assert_eq!(storage.allow, None);
    assert_eq!(
        storage.deny.unwrap()[0].access,
        vec![AccessType::Execute, AccessType::Delete]
    );
    assert_eq!(p.network.unwrap().allow.unwrap().len(), 2);
    let env = p.environment.unwrap().allow.unwrap();
    assert_eq!(env[0].key, "PATH");
    assert_eq!(env[1].key, "HOME");
    let runtime = p.runtime.unwrap();
    assert!(runtime.hyperlight.is_some());
    let security = runtime.docker.unwrap().security.unwrap();
    assert_eq!(security.privileged, Some(false));
    assert_eq!(security.no_new_privileges, Some(true));
    let caps = security.capabilities.unwrap();
    assert_eq!(caps.drop, Some(vec![policy_mcp::CapabilityAction::All]));
    assert_eq!(
        caps.add,
        Some(vec![policy_mcp::CapabilityAction::NetBindService])
    );
    assert_eq!(p.resources.unwrap().allow.unwrap()[0].id, "cpu");
    assert_eq!(p.ipc.unwrap().deny.unwrap()[0].id, "dbus");
}

#[test]
fn invalid_policy_is_not_written() {
    let policy = PolicyDocument {
        version: "3.1".to_string(),
        description: None,
        permissions: Permissions::default(),
    };
    match PolicyParser::to_yaml(&policy) {
        Err(PolicyError::Validation(ValidationError::UnsupportedVersion(v))) => {
            assert_eq!(v, "3.1")
        }
        other => panic!("unexpected outcome: {:?}", other),
    }
    assert!(PolicyParser::to_tree(&policy).is_err());
}

#[test]
fn written_text_names_the_version() {
    let policy = PolicyDocument {
        version: "1.0".to_string(),
        description: Some("Test policy".to_string()),
        permissions: Permissions::default(),
    };
    let yaml = PolicyParser::to_yaml(&policy).unwrap();
    assert!(yaml.contains("version: '1.0'"));
    assert!(yaml.contains("description: Test policy"));
}

#[test]
fn tree_round_trip() {
    let policy = PolicyDocument {
        version: "1.0".to_string(),
        description: None,
        permissions: Permissions::default(),
    };
    let tree = PolicyParser::to_tree(&policy).unwrap();
    let back = PolicyParser::parse_tree(&tree).unwrap();
    assert_eq!(policy, back);
}

#[test]
fn tree_of_a_minimal_policy() {
    let tree = YamlNode::Dict(vec![
        (text("version"), text("1.0")),
        (text("description"), YamlNode::Null),
        (text("permissions"), YamlNode::Dict(vec![])),
    ]);
    let policy = PolicyParser::parse_tree(&tree).unwrap();
    assert_eq!(policy.version, "1.0");
    assert_eq!(policy.description, None);
    assert_eq!(policy.permissions, Permissions::default());
}

#[test]
fn tree_with_a_number_as_version_is_a_format_error() {
    let tree = YamlNode::Dict(vec![
        (text("version"), YamlNode::Number),
        (text("permissions"), YamlNode::Dict(vec![])),
    ]);
    assert!(matches!(
        PolicyParser::parse_tree(&tree),
        Err(PolicyError::Format(_))
    ));
    assert!(matches!(
        PolicyParser::parse_tree(&YamlNode::Tagged),
        Err(PolicyError::Format(_))
    ));
    assert!(matches!(
        PolicyParser::parse_tree(&YamlNode::List(vec![])),
        Err(PolicyError::Format(_))
    ));
}

#[test]
fn tree_with_a_key_that_is_no_text_is_a_format_error() {
    let tree = YamlNode::Dict(vec![
        (text("version"), text("1.0")),
        (text("permissions"), YamlNode::Dict(vec![])),
        (YamlNode::Bool(true), YamlNode::Null),
    ]);
    assert!(matches!(
        PolicyParser::parse_tree(&tree),
        Err(PolicyError::Format(_))
    ));
}

#[test]
fn network_entry_holds_one_form_only() {
    let yaml = "version: \"1.0\"\npermissions:\n  network:\n    allow:\n    - host: a.example\n      cidr: 10.0.0.0/8\n";
    assert!(matches!(
        PolicyParser::parse_str(yaml),
        Err(PolicyError::Format(_))
    ));
}

#[test]
fn written_tree_names_every_key() {
    let policy = PolicyDocument {
        version: "1.0".to_string(),
        description: Some("d".to_string()),
        permissions: Permissions::default(),
    };
    match PolicyParser::to_tree(&policy).unwrap() {
        YamlNode::Dict(pairs) => {
            assert_eq!(pairs.len(), 3);
            assert!(matches!(&pairs[0].0, YamlNode::Text(k) if k == "version"));
            assert!(matches!(&pairs[0].1, YamlNode::Text(v) if v == "1.0"));
            assert!(matches!(&pairs[2].0, YamlNode::Text(k) if k == "permissions"));
        }
        other => panic!("unexpected tree: {:?}", other),
    }
}
