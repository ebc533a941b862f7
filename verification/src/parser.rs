//! Reading policies from YAML text and writing them back. A policy that is
//! read has passed validation, and only a policy that passes is written.

use vstd::prelude::*;
use vstd::string::StringExecFns;
use vstd::utf8::{decode_utf8, valid_utf8};
use crate::codec::YamlCodec;
use crate::error::{describe, ValidationError};
use crate::model::PolicyDocument;
use crate::validate::first_violation;
use crate::yaml::{
    is_writable, node_of_value, read_yaml, utf8_text, value_of_node, write_yaml, yaml_error_text,
    yaml_text, yaml_tree, YamlNode,
};

verus! {

/// Why a policy could not be read or written.
#[derive(Debug)]
pub enum PolicyError {
    /// The text is no YAML, or the YAML has not the shape of a policy.
    Format(String),
    /// The policy breaks a validation rule.
    Validation(ValidationError),
    /// The bytes are not valid UTF-8.
    Encoding,
}

pub type PolicyResult<T> = Result<T, PolicyError>;

impl PolicyError {
    /// The failure in words.
    pub fn message(&self) -> (text: String)
        ensures
            match self {
                PolicyError::Format(m) => text@ == "invalid policy format: "@ + m@,
                PolicyError::Validation(e) => text@ == describe(e@),
                PolicyError::Encoding => text@ == "Not valid UTF-8"@,
            },
    {
        match self {
            PolicyError::Format(m) => String::from_str("invalid policy format: ").concat(
                m.as_str(),
            ),
            PolicyError::Validation(e) => e.message(),
            PolicyError::Encoding => String::from_str("Not valid UTF-8"),
        }
    }
}

/// What reading a tree comes to: the valid policy that the tree stands for;
/// a format error where it stands for none; the first violation of the
/// policy it stands for where that policy is not valid.
pub open spec fn tree_outcome(tree: YamlNode, r: PolicyResult<PolicyDocument>) -> bool {
    match r {
        Ok(d) => PolicyDocument::decodes(tree, d) && first_violation(d) is None,
        Err(PolicyError::Format(_)) => forall|d: PolicyDocument| !PolicyDocument::decodes(tree, d),
        Err(PolicyError::Validation(e)) => exists|d: PolicyDocument|
            PolicyDocument::decodes(tree, d) && first_violation(d) == Some(e@),
        Err(PolicyError::Encoding) => false,
    }
}

/// What reading a text comes to: a format error where the text is no YAML,
/// and else the outcome of reading its tree.
pub open spec fn text_outcome(text: Seq<char>, r: PolicyResult<PolicyDocument>) -> bool {
    match yaml_tree(text) {
        None => r matches Err(PolicyError::Format(_)),
        Some(tree) => tree_outcome(tree, r),
    }
}

/// What writing a policy as a tree comes to: the first violation of a
/// policy that is not valid, and else a writable tree that stands for it.
pub open spec fn encoded_outcome(doc: PolicyDocument, r: PolicyResult<YamlNode>) -> bool {
    match first_violation(doc) {
        Some(v) => r matches Err(PolicyError::Validation(e)) && e@ == v,
        None => r matches Ok(tree) && PolicyDocument::decodes(tree, doc) && is_writable(tree),
    }
}

/// What writing a policy as text comes to: the first violation of a policy
/// that is not valid, and else the text of a tree that stands for it, or a
/// format error where that tree has no text.
pub open spec fn written_outcome(doc: PolicyDocument, r: PolicyResult<String>) -> bool {
    match first_violation(doc) {
        Some(v) => r matches Err(PolicyError::Validation(e)) && e@ == v,
        None => exists|tree: YamlNode|
            PolicyDocument::decodes(tree, doc) && is_writable(tree) && match yaml_text(tree) {
                Some(t) => r matches Ok(s) && s@ == t,
                None => r matches Err(PolicyError::Format(_)),
            },
    }
}

pub struct PolicyParser;

impl PolicyParser {
    /// Reads a policy from a YAML tree and validates it.
    pub fn parse_tree(tree: &YamlNode) -> (r: PolicyResult<PolicyDocument>)
        ensures
            tree_outcome(*tree, r),
    {
        match PolicyDocument::decode(tree) {
            Err(m) => Err(PolicyError::Format(m)),
            Ok(document) => match document.validate() {
                Err(e) => Err(PolicyError::Validation(e)),
                Ok(_) => Ok(document),
            },
        }
    }

    /// Reads a policy from YAML text and validates it.
    pub fn parse_str(content: &str) -> (r: PolicyResult<PolicyDocument>)
        ensures
            text_outcome(content@, r),
    {
        match read_yaml(content) {
            Err(e) => Err(PolicyError::Format(yaml_error_text(&e))),
            Ok(value) => {
                let tree: YamlNode = node_of_value(&value);
                Self::parse_tree(&tree)
            },
        }
    }

    /// Reads a policy from the bytes of YAML text. Bytes that are not valid
    /// UTF-8 are an encoding error, whatever else they hold.
    pub fn parse_bytes(bytes: &[u8]) -> (r: PolicyResult<PolicyDocument>)
        ensures
            !valid_utf8(bytes@) ==> r matches Err(PolicyError::Encoding),
            valid_utf8(bytes@) ==> text_outcome(decode_utf8(bytes@), r),
    {
        match utf8_text(bytes) {
            None => Err(PolicyError::Encoding),
            Some(content) => Self::parse_str(content),
        }
    }

    /// Validates a policy and writes it as a YAML tree.
    pub fn to_tree(document: &PolicyDocument) -> (r: PolicyResult<YamlNode>)
        ensures
            encoded_outcome(*document, r),
    {
        match document.validate() {
            Err(e) => Err(PolicyError::Validation(e)),
            Ok(_) => Ok(document.encode()),
        }
    }

    /// Validates a policy and writes it as YAML text. A policy that is not
    /// valid is not written.
    pub fn to_yaml(document: &PolicyDocument) -> (r: PolicyResult<String>)
        ensures
            written_outcome(*document, r),
    {
        let tree: YamlNode = Self::to_tree(document)?;
        let value: serde_yaml::Value = value_of_node(&tree);
        match write_yaml(&value) {
            Ok(text) => Ok(text),
            Err(e) => Err(PolicyError::Format(yaml_error_text(&e))),
        }
    }
}

} // verus!
