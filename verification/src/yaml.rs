//! YAML text and the trees it denotes. Reading and writing the text is the
//! work of `serde_yaml`; the library sees a tree of plain values.

use vstd::prelude::*;

verus! {

#[verifier::external_type_specification]
#[verifier::external_body]
pub struct ExYamlValue(serde_yaml::Value);

#[verifier::external_type_specification]
#[verifier::external_body]
pub struct ExYamlError(serde_yaml::Error);

/// A YAML value. Numbers and tagged values occur in no policy, so only
/// their presence is kept.
#[derive(Debug)]
pub enum YamlNode {
    Null,
    Bool(bool),
    Number,
    Text(String),
    List(Vec<YamlNode>),
    Dict(Vec<(YamlNode, YamlNode)>),
    Tagged,
}

/// A tree that can be written out as it stands: at any depth it has no
/// number and no tagged value, the keys of a mapping are texts, and no
/// mapping holds a key twice.
pub open spec fn is_writable(n: YamlNode) -> bool
    decreases n,
{
    match n {
        YamlNode::Null => true,
        YamlNode::Bool(_) => true,
        YamlNode::Number => false,
        YamlNode::Text(_) => true,
        YamlNode::List(items) => forall|i: int|
            0 <= i < items@.len() ==> is_writable(#[trigger] items@[i]),
        YamlNode::Dict(pairs) => {
            &&& forall|i: int|
                0 <= i < pairs@.len() ==> (#[trigger] pairs@[i]).0 is Text && is_writable(
                    pairs@[i].1,
                )
            &&& forall|i: int, j: int|
                0 <= i < j < pairs@.len() ==> pairs@[i].0->Text_0@ != pairs@[j].0->Text_0@
        },
        YamlNode::Tagged => false,
    }
}

/// What a `serde_yaml::Value` holds, as a tree of the library.
pub uninterp spec fn value_tree(v: serde_yaml::Value) -> YamlNode;

/// The tree that `serde_yaml::from_str` reads from a text, where it reads
/// one.
pub uninterp spec fn yaml_tree(text: Seq<char>) -> Option<YamlNode>;

/// The text that `serde_yaml::to_string` writes for a tree, where it
/// writes one.
pub uninterp spec fn yaml_text(tree: YamlNode) -> Option<Seq<char>>;

/// Calls `serde_yaml::from_str` for a `serde_yaml::Value`. The contract
/// claims only that the outcome is a function of the text: it gives that
/// function the name `yaml_tree`.
#[verifier::external_body]
pub(crate) fn read_yaml(text: &str) -> (r: Result<serde_yaml::Value, serde_yaml::Error>)
    ensures
        match r {
            Ok(v) => yaml_tree(text@) == Some(value_tree(v)),
            Err(_) => yaml_tree(text@) is None,
        },
{
    serde_yaml::from_str::<serde_yaml::Value>(text)
}

/// Calls `serde_yaml::to_string` on a `serde_yaml::Value` without numbers
/// and tags. The contract claims only that the outcome is a function of
/// what the value holds: it gives that function the name `yaml_text`.
#[verifier::external_body]
pub(crate) fn write_yaml(v: &serde_yaml::Value) -> (r: Result<String, serde_yaml::Error>)
    requires
        is_writable(value_tree(*v)),
    ensures
        match r {
            Ok(s) => yaml_text(value_tree(*v)) == Some(s@),
            Err(_) => yaml_text(value_tree(*v)) is None,
        },
{
    serde_yaml::to_string(v)
}

/// Copies a `serde_yaml::Value` into a tree of the library, variant by
/// variant; of a number and of a tagged value only the variant is kept.
/// The result is what `value_tree` names.
#[verifier::external_body]
pub(crate) fn node_of_value(v: &serde_yaml::Value) -> (n: YamlNode)
    ensures
        n == value_tree(*v),
{
    match v {
        serde_yaml::Value::Null => YamlNode::Null,
        serde_yaml::Value::Bool(b) => YamlNode::Bool(*b),
        serde_yaml::Value::Number(_) => YamlNode::Number,
        serde_yaml::Value::String(s) => YamlNode::Text(s.clone()),
        serde_yaml::Value::Sequence(items) => YamlNode::List(
            items.iter().map(node_of_value).collect(),
        ),
        serde_yaml::Value::Mapping(m) => YamlNode::Dict(
            m.iter().map(|(k, x)| (node_of_value(k), node_of_value(x))).collect(),
        ),
        serde_yaml::Value::Tagged(_) => YamlNode::Tagged,
    }
}

/// Builds the `serde_yaml::Value` that holds a writable tree, variant by
/// variant; a mapping is collected into a `serde_yaml::Mapping`, which
/// keeps the pairs in their order as long as no key occurs twice.
#[verifier::external_body]
pub(crate) fn value_of_node(n: &YamlNode) -> (v: serde_yaml::Value)
    requires
        is_writable(*n),
    ensures
        value_tree(v) == *n,
{
    match n {
        YamlNode::Bool(b) => serde_yaml::Value::Bool(*b),
        YamlNode::Text(s) => serde_yaml::Value::String(s.clone()),
        YamlNode::List(items) => serde_yaml::Value::Sequence(
            items.iter().map(value_of_node).collect(),
        ),
        YamlNode::Dict(pairs) => serde_yaml::Value::Mapping(
            pairs.iter().map(|p| (value_of_node(&p.0), value_of_node(&p.1))).collect(),
        ),
        _ => serde_yaml::Value::Null,
    }
}

/// The message of a `serde_yaml::Error`, through its `Display`. Nothing is
/// claimed of the text.
#[verifier::external_body]
pub(crate) fn yaml_error_text(e: &serde_yaml::Error) -> (text: String) {
    e.to_string()
}

/// Calls `std::str::from_utf8`: the text that the bytes encode, or nothing
/// where they are not valid UTF-8.
#[verifier::external_body]
pub(crate) fn utf8_text(bytes: &[u8]) -> (r: Option<&str>)
    ensures
        match r {
            Some(s) => vstd::utf8::valid_utf8(bytes@) && s@ == vstd::utf8::decode_utf8(bytes@),
            None => !vstd::utf8::valid_utf8(bytes@),
        },
{
    std::str::from_utf8(bytes).ok()
}

} // verus!
