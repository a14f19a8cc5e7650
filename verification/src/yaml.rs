//! The YAML documents that the library reads, as `serde_yaml` parses them.
//!
//! Nothing in this file is proved: the contracts describe `serde_yaml`.

use vstd::prelude::*;

verus! {

/// What kind of YAML value stands under a key, with the value of a boolean.
#[derive(Clone, Copy, Debug, PartialEq, Eq, Structural)]
pub enum YamlKind {
    Null,
    Bool(bool),
    Number,
    String,
    Sequence,
    Mapping,
    Tagged,
}

/// `serde_yaml::Mapping`, the mapping of a parsed document.
#[verifier::external_type_specification]
#[verifier::external_body]
pub struct ExMapping(serde_yaml::Mapping);

/// `serde_yaml::Error`, the reason why a text was not accepted.
#[verifier::external_type_specification]
#[verifier::external_body]
pub struct ExYamlError(serde_yaml::Error);

/// The entries of a mapping whose key is a string: for each such key the
/// kind of the value under it.
pub uninterp spec fn mapping_fields(mapping: serde_yaml::Mapping) -> Map<Seq<char>, YamlKind>;

/// What `serde_yaml::from_str` makes of a text when it is asked for a
/// mapping: the string-keyed entries of the mapping, or `None` where the
/// text is refused.
pub uninterp spec fn yaml_mapping(text: Seq<char>) -> Option<Map<Seq<char>, YamlKind>>;

/// Calls `serde_yaml::from_str` for a `serde_yaml::Mapping`.
///
/// The outcome is a function of the text alone: the contract names it
/// `yaml_mapping` and claims nothing else of it.
#[verifier::external_body]
pub(crate) fn parse_mapping(text: &str) -> (parsed: Result<serde_yaml::Mapping, serde_yaml::Error>)
    ensures
        match parsed {
            Ok(mapping) => yaml_mapping(text@) == Some(mapping_fields(mapping)),
            Err(_) => yaml_mapping(text@) is None,
        },
{
    serde_yaml::from_str::<serde_yaml::Mapping>(text)
}

/// Calls `serde_yaml::Mapping::get` with a string key and tells the variant
/// of the `serde_yaml::Value` found.
///
/// A string key finds the entry whose key is that YAML string, if there is
/// one.
#[verifier::external_body]
pub(crate) fn field_kind(mapping: &serde_yaml::Mapping, key: &str) -> (kind: Option<YamlKind>)
    ensures
        kind == (if mapping_fields(*mapping).dom().contains(key@) {
            Some(mapping_fields(*mapping)[key@])
        } else {
            None
        }),
{
    match mapping.get(key) {
        None => None,
        Some(serde_yaml::Value::Null) => Some(YamlKind::Null),
        Some(serde_yaml::Value::Bool(flag)) => Some(YamlKind::Bool(*flag)),
        Some(serde_yaml::Value::Number(_)) => Some(YamlKind::Number),
        Some(serde_yaml::Value::String(_)) => Some(YamlKind::String),
        Some(serde_yaml::Value::Sequence(_)) => Some(YamlKind::Sequence),
        Some(serde_yaml::Value::Mapping(_)) => Some(YamlKind::Mapping),
        Some(serde_yaml::Value::Tagged(_)) => Some(YamlKind::Tagged),
    }
}

} // verus!
