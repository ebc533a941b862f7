//! Declarative access-control policy documents for sandboxed tool runtimes:
//! the typed document, the rules that decide whether a document is coherent,
//! and a YAML codec around both.

pub mod codec;
pub mod consistency;
pub mod error;
pub mod laws;
pub mod model;
pub mod parser;
pub mod schema;
pub mod text;
pub mod validate;
pub mod yaml;

pub use error::{ValidationError, Violation};
pub use model::{
    AccessType, CapabilityAction, DockerCapabilities, DockerRuntime, DockerSecurity,
    EnvironmentPermission, EnvironmentPermissions, HyperlightRuntime, NetworkCidrPermission,
    NetworkHostPermission, NetworkKind, NetworkPermission, PermissionList, Permissions,
    PolicyDocument, ResourcePermission, Runtime, StoragePermission,
};
pub use parser::{PolicyError, PolicyParser, PolicyResult};
pub use yaml::YamlNode;
