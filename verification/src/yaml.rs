//! Reading YAML documents through `serde_yaml::Value`, each accessor under a
//! name for what it returns.
use vstd::prelude::*;

verus! {

#[verifier::external_type_specification]
#[verifier::external_body]
pub struct ExYamlValue(serde_yaml::Value);

/// What `serde_yaml::from_str` makes of a text: the document, or nothing
/// when the text is not YAML.
pub uninterp spec fn yaml_parse(text: Seq<char>) -> Option<serde_yaml::Value>;

/// `serde_yaml::from_str` into a `serde_yaml::Value`, the error dropped.
/// Stated: the result is `yaml_parse` of the text.
#[verifier::external_body]
pub(crate) fn parse_yaml(text: &str) -> (r: Option<serde_yaml::Value>)
    ensures
        r == yaml_parse(text@),
{
    serde_yaml::from_str::<serde_yaml::Value>(text).ok()
}

/// What `serde_yaml::Value::get` finds under a string key: the entry of a
/// mapping with that key (nothing for a value that is not a mapping).
pub uninterp spec fn yaml_member(value: serde_yaml::Value, key: Seq<char>) -> Option<serde_yaml::Value>;

/// `serde_yaml::Value::get` with a string key, the entry copied out.
/// Stated: the result is `yaml_member` of the value and the key.
#[verifier::external_body]
pub(crate) fn yaml_get(value: &serde_yaml::Value, key: &str) -> (r: Option<serde_yaml::Value>)
    ensures
        r == yaml_member(*value, key@),
{
    value.get(key).cloned()
}

/// What `serde_yaml::Value::as_str` reads: the text of a YAML string.
pub uninterp spec fn yaml_text(value: serde_yaml::Value) -> Option<Seq<char>>;

/// `serde_yaml::Value::as_str`, copied into a `String`. Stated: the result
/// is `yaml_text` of the value.
#[verifier::external_body]
pub(crate) fn yaml_as_text(value: &serde_yaml::Value) -> (r: Option<String>)
    ensures
        match r {
            Some(t) => yaml_text(*value) == Some(t@),
            None => yaml_text(*value) is None,
        },
{
    value.as_str().map(str::to_string)
}

} // verus!
